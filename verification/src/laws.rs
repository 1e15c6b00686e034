//! Laws of the rewrite pipeline, stated and proved over the passes' spec
//! functions.

use vstd::prelude::*;

use crate::ast::{ArgView, DeclaratorView, ExprView, ProgramView, StmtView};
use crate::convert_mocks::{conv_stmts, spec_convert_mocks, spec_rewrite_imports};
use crate::import_actual::{act_stmts, spec_actual_decl};
use crate::inject_globals::{
    inj_args, inj_decls, inj_expr, inj_exprs, inj_stmt, inj_stmts, spec_is_bare_jest,
    spec_qualified_jest, spec_runtime_import,
};
use crate::names::{actual_name, dec_digits, digit_char, import_name};
use crate::transformer::spec_transform;

verus! {

/// The qualified mocking-object access is a fixed point of the access
/// rewrite.
proof fn lemma_qualified_jest_stable()
    ensures
        inj_expr(spec_qualified_jest()) == spec_qualified_jest(),
{
    reveal_with_fuel(inj_expr, 4);
    reveal_strlit("jest");
    reveal_strlit("import");
    assert("import"@.len() == 6);
    assert("jest"@.len() == 4);
    assert(!spec_is_bare_jest(ExprView::Ident { name: "import"@ }));
    assert(inj_expr(spec_qualified_jest()) =~~= spec_qualified_jest());
}

/// The access rewrite never produces the bare mocking-object identifier from
/// an expression that is not it.
proof fn lemma_inj_not_bare(e: ExprView)
    ensures
        !spec_is_bare_jest(e) ==> !spec_is_bare_jest(inj_expr(e)),
{
}

/// Re-running the access rewrite on one expression changes nothing: an
/// already-qualified mocking-object access is not qualified again.
pub proof fn lemma_inject_expr_idempotent(e: ExprView)
    ensures
        inj_expr(inj_expr(e)) == inj_expr(e),
    decreases e, 1int,
{
    match e {
        ExprView::Member { object, property } => {
            if spec_is_bare_jest(*object) {
                lemma_qualified_jest_stable();
                assert(!spec_is_bare_jest(spec_qualified_jest()));
                assert(inj_expr(inj_expr(e)) =~~= inj_expr(e));
            } else {
                lemma_inject_expr_idempotent(*object);
                lemma_inj_not_bare(*object);
                assert(inj_expr(inj_expr(e)) =~~= inj_expr(e));
            }
        },
        ExprView::Call { callee, args } => {
            lemma_inject_expr_idempotent(*callee);
            lemma_inject_args_idempotent(args);
            assert(inj_expr(inj_expr(e)) =~~= inj_expr(e));
        },
        ExprView::Await { argument } => {
            lemma_inject_expr_idempotent(*argument);
            assert(inj_expr(inj_expr(e)) =~~= inj_expr(e));
        },
        ExprView::ImportExpr { source } => {
            lemma_inject_expr_idempotent(*source);
            assert(inj_expr(inj_expr(e)) =~~= inj_expr(e));
        },
        ExprView::Other { children } => {
            lemma_inject_exprs_idempotent(children);
            assert(inj_expr(inj_expr(e)) =~~= inj_expr(e));
        },
        _ => {},
    }
}

/// Idempotence of the access rewrite over a sequence of expressions.
proof fn lemma_inject_exprs_idempotent(s: Seq<ExprView>)
    ensures
        inj_exprs(inj_exprs(s)) == inj_exprs(s),
    decreases s, 0int,
{
    if s.len() > 0 {
        let rest = s.subrange(1, s.len() as int);
        lemma_inject_expr_idempotent(s[0]);
        lemma_inject_exprs_idempotent(rest);
        let once = inj_exprs(s);
        assert(once[0] == inj_expr(s[0]));
        assert(once.subrange(1, once.len() as int) =~= inj_exprs(rest));
        assert(inj_exprs(once) =~= seq![inj_expr(once[0])] + inj_exprs(
            once.subrange(1, once.len() as int),
        ));
        assert(inj_exprs(inj_exprs(s)) =~= inj_exprs(s));
    }
}

/// Idempotence of the access rewrite over one argument.
proof fn lemma_inject_arg_idempotent(a: ArgView)
    ensures
        crate::inject_globals::inj_arg(crate::inject_globals::inj_arg(a))
            == crate::inject_globals::inj_arg(a),
    decreases a, 1int,
{
    match a {
        ArgView::Item { expr } => {
            lemma_inject_expr_idempotent(expr);
        },
        ArgView::Spread { expr } => {
            lemma_inject_expr_idempotent(expr);
        },
    }
}

/// Idempotence of the access rewrite over an argument list.
proof fn lemma_inject_args_idempotent(s: Seq<ArgView>)
    ensures
        inj_args(inj_args(s)) == inj_args(s),
    decreases s, 0int,
{
    if s.len() > 0 {
        let rest = s.subrange(1, s.len() as int);
        lemma_inject_arg_idempotent(s[0]);
        lemma_inject_args_idempotent(rest);
        let once = inj_args(s);
        assert(once[0] == crate::inject_globals::inj_arg(s[0]));
        assert(once.subrange(1, once.len() as int) =~= inj_args(rest));
        assert(inj_args(once) =~= seq![crate::inject_globals::inj_arg(once[0])] + inj_args(
            once.subrange(1, once.len() as int),
        ));
        assert(inj_args(inj_args(s)) =~= inj_args(s));
    }
}

/// Idempotence of the access rewrite over a declarator list.
proof fn lemma_inject_decls_idempotent(s: Seq<DeclaratorView>)
    ensures
        inj_decls(inj_decls(s)) == inj_decls(s),
    decreases s,
{
    if s.len() > 0 {
        let rest = s.subrange(1, s.len() as int);
        lemma_inject_expr_idempotent(s[0].init);
        lemma_inject_decls_idempotent(rest);
        let once = inj_decls(s);
        assert(once[0] == (DeclaratorView { name: s[0].name, init: inj_expr(s[0].init) }));
        assert(once.subrange(1, once.len() as int) =~= inj_decls(rest));
        assert(inj_decls(once) =~= seq![
            DeclaratorView { name: once[0].name, init: inj_expr(once[0].init) },
        ] + inj_decls(once.subrange(1, once.len() as int)));
        assert(inj_decls(inj_decls(s)) =~= inj_decls(s));
    }
}

/// Idempotence of the access rewrite over one statement.
proof fn lemma_inject_stmt_idempotent(s: StmtView)
    ensures
        inj_stmt(inj_stmt(s)) == inj_stmt(s),
{
    match s {
        StmtView::Expr { expr } => {
            lemma_inject_expr_idempotent(expr);
        },
        StmtView::ConstDecl { declarators } => {
            lemma_inject_decls_idempotent(declarators);
        },
        StmtView::Other { exprs } => {
            lemma_inject_exprs_idempotent(exprs);
        },
        _ => {},
    }
}

/// Law: re-running the mocking-object-access rewrite on a body it already
/// rewrote changes nothing. An already-qualified access is never qualified a
/// second time.
pub proof fn lemma_inject_stmts_idempotent(s: Seq<StmtView>)
    ensures
        inj_stmts(inj_stmts(s)) == inj_stmts(s),
    decreases s,
{
    if s.len() > 0 {
        let rest = s.subrange(1, s.len() as int);
        lemma_inject_stmt_idempotent(s[0]);
        lemma_inject_stmts_idempotent(rest);
        let once = inj_stmts(s);
        assert(once[0] == inj_stmt(s[0]));
        assert(once.subrange(1, once.len() as int) =~= inj_stmts(rest));
        assert(inj_stmts(once) =~= seq![inj_stmt(once[0])] + inj_stmts(
            once.subrange(1, once.len() as int),
        ));
        assert(inj_stmts(inj_stmts(s)) =~= inj_stmts(s));
    }
}

/// The hoisted calls, as the statements that are prepended to the body.
pub open spec fn spec_mock_stmts(q: Seq<ExprView>) -> Seq<StmtView> {
    Seq::new(q.len(), |i: int| StmtView::Expr { expr: q[i] })
}

/// The import conversion touches only import declarations, so a prefix
/// without one passes through with the counter unmoved.
proof fn lemma_rewrite_imports_concat(a: Seq<StmtView>, b: Seq<StmtView>, n: nat)
    requires
        forall|i: int| 0 <= i < a.len() ==> !(#[trigger] a[i] matches StmtView::Import { .. }),
    ensures
        spec_rewrite_imports(a + b, n) == a + spec_rewrite_imports(b, n),
    decreases a,
{
    if a.len() == 0 {
        assert(a + b =~= b);
        assert(spec_rewrite_imports(a + b, n) =~= a + spec_rewrite_imports(b, n));
    } else {
        let rest = a.subrange(1, a.len() as int);
        assert((a + b)[0] == a[0]);
        assert((a + b).subrange(1, (a + b).len() as int) =~= rest + b);
        lemma_rewrite_imports_concat(rest, b, n);
        assert(spec_rewrite_imports(a + b, n) =~= a + spec_rewrite_imports(b, n));
    }
}

/// Law: for any number of hoisted mock-registration calls interleaved with
/// other statements, the output body's leading statements are exactly those
/// calls' rewritten forms, in original encounter order.
pub proof fn lemma_hoist_ordering(p: ProgramView)
    ensures
        ({
            let q = conv_stmts(p.body, Seq::empty()).1;
            let out = spec_convert_mocks(p).body;
            out.len() >= q.len() && out.subrange(0, q.len() as int) == spec_mock_stmts(q)
        }),
{
    let q = conv_stmts(p.body, Seq::empty()).1;
    let body1 = conv_stmts(p.body, Seq::empty()).0;
    let cleaned = crate::convert_mocks::spec_remove_placeholders(body1);
    let body2 = spec_mock_stmts(q) + cleaned;
    if q.len() > 0 {
        assert(forall|i: int|
            0 <= i < spec_mock_stmts(q).len() ==> !(#[trigger] spec_mock_stmts(q)[i]
                matches StmtView::Import { .. }));
        lemma_rewrite_imports_concat(spec_mock_stmts(q), cleaned, 0);
        assert(spec_convert_mocks(p).body == spec_mock_stmts(q) + spec_rewrite_imports(
            cleaned,
            0,
        ));
        assert(spec_convert_mocks(p).body.subrange(0, q.len() as int) =~= spec_mock_stmts(q));
    } else {
        assert(spec_mock_stmts(q) =~= Seq::<StmtView>::empty());
        assert(spec_convert_mocks(p).body.subrange(0, 0) =~= spec_mock_stmts(q));
    }
}

/// Decimal renderings are at least one digit, and two from ten upward.
proof fn lemma_dec_digits_len(n: nat)
    ensures
        dec_digits(n).len() >= 1,
        n >= 10 ==> dec_digits(n).len() >= 2,
    decreases n,
{
    if n >= 10 {
        lemma_dec_digits_len(n / 10);
    }
}

/// Distinct digits write distinct characters.
proof fn lemma_digit_char_injective(d1: nat, d2: nat)
    requires
        d1 < 10,
        d2 < 10,
        digit_char(d1) == digit_char(d2),
    ensures
        d1 == d2,
{
}

/// Distinct numbers have distinct decimal renderings.
pub proof fn lemma_dec_digits_injective(m: nat, n: nat)
    ensures
        dec_digits(m) == dec_digits(n) ==> m == n,
    decreases m,
{
    if dec_digits(m) == dec_digits(n) {
        lemma_dec_digits_len(m);
        lemma_dec_digits_len(n);
        if m < 10 && n < 10 {
            assert(dec_digits(m)[0] == digit_char(m));
            assert(dec_digits(n)[0] == digit_char(n));
            lemma_digit_char_injective(m, n);
        } else if m < 10 || n < 10 {
            assert(dec_digits(m).len() == dec_digits(n).len());
            assert(false);
        } else {
            let a = dec_digits(m / 10);
            let b = dec_digits(n / 10);
            assert(a.push(digit_char(m % 10)) == b.push(digit_char(n % 10)));
            assert(a.len() == b.len());
            assert(a.push(digit_char(m % 10))[a.len() as int] == digit_char(m % 10));
            assert(b.push(digit_char(n % 10))[b.len() as int] == digit_char(n % 10));
            lemma_digit_char_injective(m % 10, n % 10);
            assert forall|k: int| 0 <= k < a.len() implies a[k] == b[k] by {
                assert(a.push(digit_char(m % 10))[k] == a[k]);
                assert(b.push(digit_char(n % 10))[k] == b[k]);
            }
            assert(a =~= b);
            lemma_dec_digits_injective(m / 10, n / 10);
            vstd::arithmetic::div_mod::lemma_fundamental_div_mod(m as int, 10);
            vstd::arithmetic::div_mod::lemma_fundamental_div_mod(n as int, 10);
        }
    }
}

/// Distinct indices give distinct synthetic "require actual" binding names.
pub proof fn lemma_actual_name_injective(i: nat, j: nat)
    ensures
        i != j ==> actual_name(i) != actual_name(j),
{
    if actual_name(i) == actual_name(j) {
        let p = "__oxjest_actual_"@;
        let sfx = "__"@;
        let di = dec_digits(i);
        let dj = dec_digits(j);
        assert((p + di + sfx).len() == p.len() + di.len() + sfx.len());
        assert((p + dj + sfx).len() == p.len() + dj.len() + sfx.len());
        assert(di.len() == dj.len());
        assert forall|k: int| 0 <= k < di.len() implies di[k] == dj[k] by {
            assert((p + di + sfx)[p.len() + k] == di[k]);
            assert((p + dj + sfx)[p.len() + k] == dj[k]);
        }
        assert(di =~= dj);
        lemma_dec_digits_injective(i, j);
    }
}

/// Distinct indices give distinct fresh namespace-binding names: the
/// per-invocation counter alone keeps the converted imports' bindings apart.
pub proof fn lemma_import_name_injective(i: nat, j: nat)
    ensures
        i != j ==> import_name(i) != import_name(j),
{
    if import_name(i) == import_name(j) {
        let p = "__oxjest_import_"@;
        let sfx = "__"@;
        let di = dec_digits(i);
        let dj = dec_digits(j);
        assert((p + di + sfx).len() == p.len() + di.len() + sfx.len());
        assert((p + dj + sfx).len() == p.len() + dj.len() + sfx.len());
        assert(di.len() == dj.len());
        assert forall|k: int| 0 <= k < di.len() implies di[k] == dj[k] by {
            assert((p + di + sfx)[p.len() + k] == di[k]);
            assert((p + dj + sfx)[p.len() + k] == dj[k]);
        }
        assert(di =~= dj);
        lemma_dec_digits_injective(i, j);
    }
}

/// Law: repeated "require actual" module ids are not deduplicated. The
/// prepended declaration holds one declarator per recorded call site, in
/// index order, each with its own dynamic import of the recorded id, and all
/// binding names are pairwise distinct.
pub proof fn lemma_no_dedup(reg: Seq<Seq<char>>)
    ensures
        ({
            let d = spec_actual_decl(reg)->ConstDecl_declarators;
            &&& d.len() == reg.len()
            &&& forall|i: int|
                0 <= i < reg.len() ==> (#[trigger] d[i]).init == (ExprView::Await {
                    argument: Box::new(
                        ExprView::ImportExpr { source: Box::new(ExprView::Str { value: reg[i] }) },
                    ),
                })
            &&& forall|i: int, j: int| 0 <= i < j < reg.len() ==> d[i].name != d[j].name
        }),
{
    let d = spec_actual_decl(reg)->ConstDecl_declarators;
    assert forall|i: int, j: int| 0 <= i < j < reg.len() implies d[i].name != d[j].name by {
        lemma_actual_name_injective(i as nat, j as nat);
    }
}

/// The import declarations of a body, in order.
pub open spec fn imports_of(s: Seq<StmtView>) -> Seq<StmtView>
    decreases s,
{
    if s.len() == 0 {
        Seq::empty()
    } else if s[0] matches StmtView::Import { .. } {
        seq![s[0]] + imports_of(s.subrange(1, s.len() as int))
    } else {
        imports_of(s.subrange(1, s.len() as int))
    }
}

/// `imports_of` distributes over concatenation.
proof fn lemma_imports_of_concat(a: Seq<StmtView>, b: Seq<StmtView>)
    ensures
        imports_of(a + b) == imports_of(a) + imports_of(b),
    decreases a,
{
    if a.len() == 0 {
        assert(a + b =~= b);
        assert(imports_of(a) + imports_of(b) =~= imports_of(b));
    } else {
        let rest = a.subrange(1, a.len() as int);
        assert((a + b)[0] == a[0]);
        assert((a + b).subrange(1, (a + b).len() as int) =~= rest + b);
        lemma_imports_of_concat(rest, b);
        assert(imports_of(a + b) =~= imports_of(a) + imports_of(b));
    }
}

/// The imports of a one-statement body.
proof fn lemma_imports_of_single(t: StmtView)
    ensures
        imports_of(seq![t]) == if t matches StmtView::Import { .. } {
            seq![t]
        } else {
            Seq::<StmtView>::empty()
        },
{
    reveal_with_fuel(imports_of, 2);
    assert(seq![t].subrange(1, 1) =~= Seq::<StmtView>::empty());
    if t matches StmtView::Import { .. } {
        assert(imports_of(seq![t]) =~= seq![t]);
    } else {
        assert(imports_of(seq![t]) =~= Seq::<StmtView>::empty());
    }
}

/// ConvertMocks leaves every import declaration as it stands.
proof fn lemma_conv_keeps_imports(s: Seq<StmtView>, q: Seq<ExprView>)
    ensures
        imports_of(conv_stmts(s, q).0) == imports_of(s),
    decreases s,
{
    if s.len() > 0 {
        let rest = s.subrange(1, s.len() as int);
        let t = crate::convert_mocks::conv_stmt(s[0], q).0;
        let q1 = crate::convert_mocks::conv_stmt(s[0], q).1;
        lemma_conv_keeps_imports(rest, q1);
        lemma_imports_of_single(t);
        lemma_imports_of_single(s[0]);
        lemma_imports_of_concat(seq![t], conv_stmts(rest, q1).0);
        assert(seq![s[0]] + rest =~= s);
        lemma_imports_of_concat(seq![s[0]], rest);
        assert(imports_of(conv_stmts(s, q).0) =~= imports_of(s));
    }
}

/// Placeholder removal leaves every import declaration as it stands.
proof fn lemma_remove_placeholders_keeps_imports(s: Seq<StmtView>)
    ensures
        imports_of(crate::convert_mocks::spec_remove_placeholders(s)) == imports_of(s),
    decreases s,
{
    if s.len() > 0 {
        let rest = s.subrange(1, s.len() as int);
        lemma_remove_placeholders_keeps_imports(rest);
        if crate::convert_mocks::spec_keep_stmt(s[0]) {
            lemma_imports_of_concat(
                seq![s[0]],
                crate::convert_mocks::spec_remove_placeholders(rest),
            );
            lemma_imports_of_single(s[0]);
            assert(seq![s[0]] + rest =~= s);
            lemma_imports_of_concat(seq![s[0]], rest);
            assert(imports_of(crate::convert_mocks::spec_remove_placeholders(s)) =~= imports_of(
                s,
            ));
        }
    }
}

/// The access rewrite leaves every import declaration as it stands.
proof fn lemma_inject_keeps_imports(s: Seq<StmtView>)
    ensures
        imports_of(inj_stmts(s)) == imports_of(s),
    decreases s,
{
    if s.len() > 0 {
        let rest = s.subrange(1, s.len() as int);
        let t = inj_stmt(s[0]);
        lemma_inject_keeps_imports(rest);
        lemma_imports_of_single(t);
        lemma_imports_of_single(s[0]);
        lemma_imports_of_concat(seq![t], inj_stmts(rest));
        assert(seq![s[0]] + rest =~= s);
        lemma_imports_of_concat(seq![s[0]], rest);
        assert(imports_of(inj_stmts(s)) =~= imports_of(s));
    }
}

/// The "require actual" rewrite leaves every import declaration as it stands.
proof fn lemma_actual_keeps_imports(s: Seq<StmtView>, r: Seq<Seq<char>>)
    ensures
        imports_of(act_stmts(s, r).0) == imports_of(s),
    decreases s,
{
    if s.len() > 0 {
        let rest = s.subrange(1, s.len() as int);
        let t = crate::import_actual::act_stmt(s[0], r).0;
        let r1 = crate::import_actual::act_stmt(s[0], r).1;
        lemma_actual_keeps_imports(rest, r1);
        lemma_imports_of_single(t);
        lemma_imports_of_single(s[0]);
        lemma_imports_of_concat(seq![t], act_stmts(rest, r1).0);
        assert(seq![s[0]] + rest =~= s);
        lemma_imports_of_concat(seq![s[0]], rest);
        assert(imports_of(act_stmts(s, r).0) =~= imports_of(s));
    }
}

/// Law: a file in which nothing is hoisted — no `jest.mock` call carrying an
/// argument — keeps every one of its import declarations byte-identical
/// through the whole pipeline; the only import added is the runtime import,
/// in front.
pub proof fn lemma_no_mock_fast_path(p: ProgramView)
    requires
        conv_stmts(p.body, Seq::empty()).1 == Seq::<ExprView>::empty(),
    ensures
        imports_of(spec_transform(p).body) == seq![spec_runtime_import()] + imports_of(p.body),
{
    let body1 = conv_stmts(p.body, Seq::empty()).0;
    let cleaned = crate::convert_mocks::spec_remove_placeholders(body1);
    let c = spec_convert_mocks(p);
    assert(c.body =~= cleaned);
    lemma_conv_keeps_imports(p.body, Seq::empty());
    lemma_remove_placeholders_keeps_imports(body1);
    assert(imports_of(c.body) == imports_of(p.body));

    let g = crate::inject_globals::spec_inject_globals(c);
    lemma_imports_of_concat(seq![spec_runtime_import()], inj_stmts(c.body));
    lemma_imports_of_single(spec_runtime_import());
    lemma_inject_keeps_imports(c.body);
    assert(imports_of(g.body) == seq![spec_runtime_import()] + imports_of(p.body));

    let b2 = act_stmts(g.body, Seq::empty()).0;
    let reg = act_stmts(g.body, Seq::empty()).1;
    lemma_actual_keeps_imports(g.body, Seq::empty());
    if reg.len() > 0 {
        lemma_imports_of_concat(seq![crate::import_actual::spec_actual_decl(reg)], b2);
        lemma_imports_of_single(crate::import_actual::spec_actual_decl(reg));
    }
    assert(imports_of(spec_transform(p).body) =~= seq![spec_runtime_import()] + imports_of(
        p.body,
    ));
}

/// The import conversion leaves no import declaration behind: every one
/// becomes a `const` declaration, and nothing else becomes an import.
proof fn lemma_rewrite_imports_leaves_none(s: Seq<StmtView>, n: nat)
    ensures
        imports_of(spec_rewrite_imports(s, n)) == Seq::<StmtView>::empty(),
    decreases s,
{
    if s.len() > 0 {
        let rest = s.subrange(1, s.len() as int);
        match s[0] {
            StmtView::Import { source, specifiers } => {
                let d = crate::convert_mocks::spec_dynamic_import(source, specifiers, n);
                lemma_rewrite_imports_leaves_none(rest, n + 1);
                lemma_imports_of_concat(seq![d], spec_rewrite_imports(rest, n + 1));
                lemma_imports_of_single(d);
                assert(imports_of(spec_rewrite_imports(s, n)) =~= Seq::<StmtView>::empty());
            },
            _ => {
                lemma_rewrite_imports_leaves_none(rest, n);
                lemma_imports_of_concat(seq![s[0]], spec_rewrite_imports(rest, n));
                lemma_imports_of_single(s[0]);
                assert(imports_of(spec_rewrite_imports(s, n)) =~= Seq::<StmtView>::empty());
            },
        }
    }
}

/// Law: if and only if at least one call was hoisted, the static imports are
/// deferred — with a non-empty hoist queue not one import declaration
/// remains in the pass's output body. The only-if direction is
/// `lemma_no_mock_fast_path`.
pub proof fn lemma_hoisting_defers_all_imports(p: ProgramView)
    requires
        conv_stmts(p.body, Seq::empty()).1.len() > 0,
    ensures
        imports_of(spec_convert_mocks(p).body) == Seq::<StmtView>::empty(),
{
    let body1 = conv_stmts(p.body, Seq::empty()).0;
    let q = conv_stmts(p.body, Seq::empty()).1;
    let body2 = spec_mock_stmts(q) + crate::convert_mocks::spec_remove_placeholders(body1);
    lemma_rewrite_imports_leaves_none(body2, 0);
}

/// The access rewrite distributes over concatenation of statement lists.
proof fn lemma_inj_stmts_concat(a: Seq<StmtView>, b: Seq<StmtView>)
    ensures
        inj_stmts(a + b) == inj_stmts(a) + inj_stmts(b),
    decreases a,
{
    if a.len() == 0 {
        assert(a + b =~= b);
        assert(inj_stmts(a) + inj_stmts(b) =~= inj_stmts(b));
    } else {
        let rest = a.subrange(1, a.len() as int);
        assert((a + b)[0] == a[0]);
        assert((a + b).subrange(1, (a + b).len() as int) =~= rest + b);
        lemma_inj_stmts_concat(rest, b);
        assert(inj_stmts(a + b) =~= inj_stmts(a) + inj_stmts(b));
    }
}

/// The access rewrite keeps the number of statements.
proof fn lemma_inj_stmts_len(s: Seq<StmtView>)
    ensures
        inj_stmts(s).len() == s.len(),
    decreases s,
{
    if s.len() > 0 {
        lemma_inj_stmts_len(s.subrange(1, s.len() as int));
    }
}

/// The "require actual" rewrite splits over concatenation: the first part
/// runs on the incoming registry, the second on what the first left.
proof fn lemma_act_stmts_concat(a: Seq<StmtView>, b: Seq<StmtView>, r: Seq<Seq<char>>)
    ensures
        act_stmts(a + b, r).0 == act_stmts(a, r).0 + act_stmts(b, act_stmts(a, r).1).0,
        act_stmts(a + b, r).1 == act_stmts(b, act_stmts(a, r).1).1,
    decreases a,
{
    if a.len() == 0 {
        assert(a + b =~= b);
        assert(act_stmts(a, r).0 + act_stmts(b, r).0 =~= act_stmts(b, r).0);
    } else {
        let rest = a.subrange(1, a.len() as int);
        assert((a + b)[0] == a[0]);
        assert((a + b).subrange(1, (a + b).len() as int) =~= rest + b);
        let r1 = crate::import_actual::act_stmt(a[0], r).1;
        lemma_act_stmts_concat(rest, b, r1);
        assert(act_stmts(a + b, r).0 =~= act_stmts(a, r).0 + act_stmts(
            b,
            act_stmts(a, r).1,
        ).0);
    }
}

/// The "require actual" rewrite keeps the number of statements.
proof fn lemma_act_stmts_len(s: Seq<StmtView>, r: Seq<Seq<char>>)
    ensures
        act_stmts(s, r).0.len() == s.len(),
    decreases s,
{
    if s.len() > 0 {
        lemma_act_stmts_len(s.subrange(1, s.len() as int), crate::import_actual::act_stmt(s[0], r).1);
    }
}

/// Both later passes keep an expression statement an expression statement.
proof fn lemma_passes_keep_expr_kind(s: Seq<StmtView>, r: Seq<Seq<char>>)
    requires
        forall|i: int| 0 <= i < s.len() ==> (#[trigger] s[i]) matches StmtView::Expr { .. },
    ensures
        act_stmts(inj_stmts(s), r).0.len() == s.len(),
        forall|i: int|
            0 <= i < s.len() ==> (#[trigger] act_stmts(inj_stmts(s), r).0[i]) matches StmtView::Expr { .. },
    decreases s,
{
    lemma_inj_stmts_len(s);
    lemma_act_stmts_len(inj_stmts(s), r);
    if s.len() > 0 {
        let rest = s.subrange(1, s.len() as int);
        let t = inj_stmt(s[0]);
        assert(t matches StmtView::Expr { .. });
        let u = crate::import_actual::act_stmt(t, r).0;
        assert(u matches StmtView::Expr { .. });
        let r1 = crate::import_actual::act_stmt(t, r).1;
        lemma_passes_keep_expr_kind(rest, r1);
        assert(inj_stmts(s).subrange(1, inj_stmts(s).len() as int) =~= inj_stmts(rest));
        assert forall|i: int|
            0 <= i < s.len() implies (#[trigger] act_stmts(inj_stmts(s), r).0[i])
            matches StmtView::Expr { .. } by {
            if i > 0 {
                assert(act_stmts(inj_stmts(s), r).0[i] == act_stmts(inj_stmts(rest), r1).0[i - 1]);
            }
        }
    }
}

/// Law: for any number of hoisted mock-registration calls, the output of the
/// whole pipeline carries those calls' fully rewritten forms, in original
/// encounter order, as the leading statements right after the prepended
/// declarations — the runtime import and, when "require actual" calls were
/// recorded, the actual-import declaration. Every one of them is an
/// expression statement, not an import.
pub proof fn lemma_hoist_ordering_pipeline(p: ProgramView)
    ensures
        ({
            let q = conv_stmts(p.body, Seq::empty()).1;
            let g = crate::inject_globals::spec_inject_globals(spec_convert_mocks(p));
            let reg = act_stmts(g.body, Seq::empty()).1;
            let k0: int = if reg.len() > 0 { 2 } else { 1 };
            let hoisted = act_stmts(inj_stmts(spec_mock_stmts(q)), Seq::empty()).0;
            let out = spec_transform(p).body;
            &&& hoisted.len() == q.len()
            &&& out.len() >= k0 + q.len()
            &&& out.subrange(k0, k0 + q.len() as int) == hoisted
            &&& forall|i: int|
                0 <= i < q.len() ==> (#[trigger] hoisted[i]) matches StmtView::Expr { .. }
        }),
{
    let body1 = conv_stmts(p.body, Seq::empty()).0;
    let q = conv_stmts(p.body, Seq::empty()).1;
    let cleaned = crate::convert_mocks::spec_remove_placeholders(body1);
    let mock_stmts = spec_mock_stmts(q);
    let c = spec_convert_mocks(p);

    // The pass output is the mock statements followed by the rest.
    let tail: Seq<StmtView> = if q.len() > 0 {
        spec_rewrite_imports(cleaned, 0)
    } else {
        cleaned
    };
    if q.len() > 0 {
        assert(forall|i: int|
            0 <= i < mock_stmts.len() ==> !(#[trigger] mock_stmts[i]
                matches StmtView::Import { .. }));
        lemma_rewrite_imports_concat(mock_stmts, cleaned, 0);
        assert(c.body == mock_stmts + tail);
    } else {
        assert(mock_stmts =~= Seq::<StmtView>::empty());
        assert(c.body =~= mock_stmts + tail);
    }

    // InjectGlobals: the runtime import, then the rewritten statements.
    let g = crate::inject_globals::spec_inject_globals(c);
    lemma_inj_stmts_concat(mock_stmts, tail);
    assert(g.body =~= seq![spec_runtime_import()] + inj_stmts(mock_stmts) + inj_stmts(tail));

    // ImportActual: the runtime import is untouched and records nothing, so
    // the hoisted statements are processed first, on the empty registry.
    let a0 = act_stmts(g.body, Seq::empty());
    lemma_act_stmts_concat(
        seq![spec_runtime_import()],
        inj_stmts(mock_stmts) + inj_stmts(tail),
        Seq::empty(),
    );
    assert(seq![spec_runtime_import()].subrange(1, 1) =~= Seq::<StmtView>::empty());
    reveal_with_fuel(act_stmts, 2);
    assert(act_stmts(seq![spec_runtime_import()], Seq::<Seq<char>>::empty()).0
        =~= seq![spec_runtime_import()]);
    assert(act_stmts(seq![spec_runtime_import()], Seq::<Seq<char>>::empty()).1
        =~= Seq::<Seq<char>>::empty());
    lemma_act_stmts_concat(inj_stmts(mock_stmts), inj_stmts(tail), Seq::empty());
    let hoisted = act_stmts(inj_stmts(mock_stmts), Seq::empty()).0;
    let reg_h = act_stmts(inj_stmts(mock_stmts), Seq::empty()).1;
    let rest_done = act_stmts(inj_stmts(tail), reg_h).0;
    assert(a0.0 =~= seq![spec_runtime_import()] + hoisted + rest_done);

    assert(forall|i: int|
        0 <= i < mock_stmts.len() ==> (#[trigger] mock_stmts[i]) matches StmtView::Expr { .. });
    lemma_passes_keep_expr_kind(mock_stmts, Seq::empty());
    assert(hoisted.len() == q.len());

    let reg = a0.1;
    let out = spec_transform(p).body;
    let k0: int = if reg.len() > 0 { 2 } else { 1 };
    if reg.len() > 0 {
        assert(out =~= seq![crate::import_actual::spec_actual_decl(reg)] + a0.0);
    } else {
        assert(out =~= a0.0);
    }
    assert(out.subrange(k0, k0 + q.len() as int) =~= hoisted);
}

} // verus!
