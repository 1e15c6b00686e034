//! The ConvertMocks pass.
//!
//! One depth-first, mutate-on-exit traversal over the tree, then a flush at
//! the end of the program:
//! - every `jest.mock(id[, factory])` or `jest.doMock(id[, factory])` call is
//!   renamed to `jest.unstable_mockModule(...)`, and when the call has fewer
//!   than two arguments and its first is a literal string, a generated
//!   factory argument `__oxjest__.createMockFactory(await import(id))` is
//!   appended;
//! - every rewritten `jest.mock` call with at least one argument — not
//!   `jest.doMock`, and not a bare zero-argument call — moves into the hoist
//!   queue, leaving a placeholder that is deleted afterwards;
//! - the queue's contents are prepended to the body in encounter order;
//! - if and only if at least one call was hoisted, every static import
//!   declaration in the body is converted to a `const` declaration over an
//!   awaited dynamic import.

use vstd::prelude::*;

use crate::ast::{
    view_args, view_expr, view_exprs, Arg, ArgView, Declarator, DeclaratorView, Expr, ExprView,
    ImportSpec, ImportSpecView, Program, ProgramView, Stmt, StmtView,
};
use crate::jest::{
    is_jest_do_mock_call, is_jest_mock_call, spec_is_jest_do_mock_call, spec_is_jest_mock_call,
};
use crate::names::{import_name, make_import_name};

verus! {

broadcast use crate::ast::lemma_view_exprs, crate::ast::lemma_view_args;

/// The views of a sequence of statements.
pub open spec fn view_stmts(s: Seq<Stmt>) -> Seq<StmtView> {
    s.map_values(|x: Stmt| x@)
}

/// The views of a sequence of import specifiers.
pub open spec fn view_specifiers(s: Seq<ImportSpec>) -> Seq<ImportSpecView> {
    s.map_values(|x: ImportSpec| x@)
}

/// The generated factory argument for a mock call without one:
/// `__oxjest__.createMockFactory(await import(id))`.
pub open spec fn spec_create_mock_factory(id: Seq<char>) -> ExprView {
    ExprView::Call {
        callee: Box::new(
            ExprView::Member {
                object: Box::new(ExprView::Ident { name: "__oxjest__"@ }),
                property: "createMockFactory"@,
            },
        ),
        args: seq![
            ArgView::Item {
                expr: ExprView::Await {
                    argument: Box::new(
                        ExprView::ImportExpr { source: Box::new(ExprView::Str { value: id }) },
                    ),
                },
            },
        ],
    }
}

/// The argument list of a rewritten mock call: with two or more arguments it
/// is kept; with fewer, a generated factory is appended when the first
/// argument is a literal string module id.
pub open spec fn spec_mock_args(args: Seq<ArgView>) -> Seq<ArgView> {
    if args.len() >= 2 {
        args
    } else if args.len() == 1 && args[0] matches ArgView::Item { expr: ExprView::Str { value } } {
        args.push(
            ArgView::Item {
                expr: spec_create_mock_factory(args[0]->Item_expr->Str_value),
            },
        )
    } else {
        args
    }
}

/// Whether a matched `jest.mock` call moves into the hoist queue: every such
/// call with at least one argument is hoisted, whatever that argument's
/// shape — a non-literal module id only forgoes the generated factory. A
/// bare zero-argument call is renamed in place and left where it stands.
pub open spec fn spec_mock_hoisted(args: Seq<ArgView>) -> bool {
    args.len() >= 1
}

/// The argument list of a call expression.
pub open spec fn spec_args_of(e: ExprView) -> Seq<ArgView> {
    match e {
        ExprView::Call { args, .. } => args,
        _ => Seq::empty(),
    }
}

/// A matched mock call with its method renamed to `unstable_mockModule` and
/// its argument list rewritten.
pub open spec fn spec_renamed_mock(e: ExprView) -> ExprView {
    match e {
        ExprView::Call { callee, args } => match *callee {
            ExprView::Member { object, .. } => ExprView::Call {
                callee: Box::new(
                    ExprView::Member { object, property: "unstable_mockModule"@ },
                ),
                args: spec_mock_args(args),
            },
            _ => e,
        },
        _ => e,
    }
}

/// What the pass does to one node whose children are already rewritten,
/// together with the hoist queue: a `jest.mock` call with at least one
/// argument moves into the queue and leaves a placeholder; a `jest.doMock`
/// call or a zero-argument `jest.mock` call is rewritten in place;
/// everything else is untouched.
pub open spec fn conv_node(e: ExprView, q: Seq<ExprView>) -> (ExprView, Seq<ExprView>) {
    if spec_is_jest_mock_call(e) || spec_is_jest_do_mock_call(e) {
        let r = spec_renamed_mock(e);
        if spec_is_jest_mock_call(e) && spec_mock_hoisted(spec_args_of(e)) {
            (ExprView::Null, q.push(r))
        } else {
            (r, q)
        }
    } else {
        (e, q)
    }
}

/// The depth-first rewrite of one expression, threading the hoist queue:
/// children are rewritten left to right before the node itself is handled.
pub open spec fn conv_expr(e: ExprView, q: Seq<ExprView>) -> (ExprView, Seq<ExprView>)
    decreases e, 1int,
{
    match e {
        ExprView::Member { object, property } => {
            let (o, q1) = conv_expr(*object, q);
            (ExprView::Member { object: Box::new(o), property }, q1)
        },
        ExprView::Call { callee, args } => {
            let (c, q1) = conv_expr(*callee, q);
            let (a, q2) = conv_args(args, q1);
            conv_node(ExprView::Call { callee: Box::new(c), args: a }, q2)
        },
        ExprView::Await { argument } => {
            let (a, q1) = conv_expr(*argument, q);
            (ExprView::Await { argument: Box::new(a) }, q1)
        },
        ExprView::ImportExpr { source } => {
            let (s, q1) = conv_expr(*source, q);
            (ExprView::ImportExpr { source: Box::new(s) }, q1)
        },
        ExprView::Other { children } => {
            let (c, q1) = conv_exprs(children, q);
            (ExprView::Other { children: c }, q1)
        },
        _ => (e, q),
    }
}

/// The rewrite of a sequence of expressions, left to right.
pub open spec fn conv_exprs(s: Seq<ExprView>, q: Seq<ExprView>) -> (Seq<ExprView>, Seq<ExprView>)
    decreases s, 0int,
{
    if s.len() == 0 {
        (Seq::empty(), q)
    } else {
        let (e, q1) = conv_expr(s[0], q);
        let (rest, q2) = conv_exprs(s.subrange(1, s.len() as int), q1);
        (seq![e] + rest, q2)
    }
}

/// The rewrite of one call argument.
pub open spec fn conv_arg(a: ArgView, q: Seq<ExprView>) -> (ArgView, Seq<ExprView>)
    decreases a, 1int,
{
    match a {
        ArgView::Item { expr } => {
            let (e, q1) = conv_expr(expr, q);
            (ArgView::Item { expr: e }, q1)
        },
        ArgView::Spread { expr } => {
            let (e, q1) = conv_expr(expr, q);
            (ArgView::Spread { expr: e }, q1)
        },
    }
}

/// The rewrite of an argument list, left to right.
pub open spec fn conv_args(s: Seq<ArgView>, q: Seq<ExprView>) -> (Seq<ArgView>, Seq<ExprView>)
    decreases s, 0int,
{
    if s.len() == 0 {
        (Seq::empty(), q)
    } else {
        let (a, q1) = conv_arg(s[0], q);
        let (rest, q2) = conv_args(s.subrange(1, s.len() as int), q1);
        (seq![a] + rest, q2)
    }
}

/// The rewrite of a declarator list, left to right.
pub open spec fn conv_decls(
    s: Seq<DeclaratorView>,
    q: Seq<ExprView>,
) -> (Seq<DeclaratorView>, Seq<ExprView>)
    decreases s,
{
    if s.len() == 0 {
        (Seq::empty(), q)
    } else {
        let (e, q1) = conv_expr(s[0].init, q);
        let (rest, q2) = conv_decls(s.subrange(1, s.len() as int), q1);
        (seq![DeclaratorView { name: s[0].name, init: e }] + rest, q2)
    }
}

/// The rewrite of the expressions of one statement. Import declarations hold
/// no expressions and pass through unchanged here.
pub open spec fn conv_stmt(s: StmtView, q: Seq<ExprView>) -> (StmtView, Seq<ExprView>) {
    match s {
        StmtView::Expr { expr } => {
            let (e, q1) = conv_expr(expr, q);
            (StmtView::Expr { expr: e }, q1)
        },
        StmtView::ConstDecl { declarators } => {
            let (d, q1) = conv_decls(declarators, q);
            (StmtView::ConstDecl { declarators: d }, q1)
        },
        StmtView::Other { exprs } => {
            let (e, q1) = conv_exprs(exprs, q);
            (StmtView::Other { exprs: e }, q1)
        },
        _ => (s, q),
    }
}

/// The rewrite of the statement list, left to right.
pub open spec fn conv_stmts(s: Seq<StmtView>, q: Seq<ExprView>) -> (Seq<StmtView>, Seq<ExprView>)
    decreases s,
{
    if s.len() == 0 {
        (Seq::empty(), q)
    } else {
        let (t, q1) = conv_stmt(s[0], q);
        let (rest, q2) = conv_stmts(s.subrange(1, s.len() as int), q1);
        (seq![t] + rest, q2)
    }
}

/// A statement survives the cleanup unless it is the placeholder left where
/// a hoisted call was extracted.
pub open spec fn spec_keep_stmt(s: StmtView) -> bool {
    !(s matches StmtView::Expr { expr: ExprView::Null })
}

/// Deletes the placeholders, keeping the relative order of the rest.
pub open spec fn spec_remove_placeholders(s: Seq<StmtView>) -> Seq<StmtView>
    decreases s,
{
    if s.len() == 0 {
        Seq::empty()
    } else if spec_keep_stmt(s[0]) {
        seq![s[0]] + spec_remove_placeholders(s.subrange(1, s.len() as int))
    } else {
        spec_remove_placeholders(s.subrange(1, s.len() as int))
    }
}

/// The declarator generated for one original import specifier of the `n`-th
/// converted import: default specifiers bind the namespace's `"default"`
/// property, named specifiers the property of the imported name, and a
/// namespace specifier binds the fresh namespace itself.
pub open spec fn spec_specifier_declarator(s: ImportSpecView, n: nat) -> DeclaratorView {
    match s {
        ImportSpecView::Default { local } => DeclaratorView {
            name: local,
            init: ExprView::Member {
                object: Box::new(ExprView::Ident { name: import_name(n) }),
                property: "default"@,
            },
        },
        ImportSpecView::Named { imported, local } => DeclaratorView {
            name: local,
            init: ExprView::Member {
                object: Box::new(ExprView::Ident { name: import_name(n) }),
                property: imported,
            },
        },
        ImportSpecView::Namespace { local } => DeclaratorView {
            name: local,
            init: ExprView::Ident { name: import_name(n) },
        },
    }
}

/// The dynamic-import replacement of the `n`-th import declaration:
/// `const <fresh> = await import(source), <one declarator per specifier>;`.
pub open spec fn spec_dynamic_import(
    source: Seq<char>,
    specifiers: Seq<ImportSpecView>,
    n: nat,
) -> StmtView {
    StmtView::ConstDecl {
        declarators: seq![
            DeclaratorView {
                name: import_name(n),
                init: ExprView::Await {
                    argument: Box::new(
                        ExprView::ImportExpr {
                            source: Box::new(ExprView::Str { value: source }),
                        },
                    ),
                },
            },
        ] + Seq::new(specifiers.len(), |i: int| spec_specifier_declarator(specifiers[i], n)),
    }
}

/// Replaces every import declaration with its dynamic-import form, numbering
/// the conversions from `n` in body order.
pub open spec fn spec_rewrite_imports(s: Seq<StmtView>, n: nat) -> Seq<StmtView>
    decreases s,
{
    if s.len() == 0 {
        Seq::empty()
    } else {
        match s[0] {
            StmtView::Import { source, specifiers } => seq![
                spec_dynamic_import(source, specifiers, n),
            ] + spec_rewrite_imports(s.subrange(1, s.len() as int), n + 1),
            _ => seq![s[0]] + spec_rewrite_imports(s.subrange(1, s.len() as int), n),
        }
    }
}

/// The whole pass: rewrite every expression collecting the hoist queue,
/// delete the placeholders, prepend the queue in encounter order, and, when
/// anything was hoisted, convert every import declaration.
pub open spec fn spec_convert_mocks(p: ProgramView) -> ProgramView {
    let (body1, q) = conv_stmts(p.body, Seq::empty());
    let body2 = Seq::new(q.len(), |i: int| StmtView::Expr { expr: q[i] })
        + spec_remove_placeholders(body1);
    if q.len() > 0 {
        ProgramView { body: spec_rewrite_imports(body2, 0) }
    } else {
        ProgramView { body: body2 }
    }
}

/// Builds the generated factory argument `__oxjest__.createMockFactory(await
/// import(id))`.
fn create_mock_factory(id: &String) -> (r: Expr)
    ensures
        r@ == spec_create_mock_factory(id@),
{
    let mut args: Vec<Arg> = Vec::new();
    args.push(
        Arg::Item {
            expr: Expr::Await {
                argument: Box::new(
                    Expr::ImportExpr { source: Box::new(Expr::Str { value: id.clone() }) },
                ),
            },
        },
    );
    let r = Expr::Call {
        callee: Box::new(
            Expr::Member {
                object: Box::new(Expr::Ident { name: "__oxjest__".to_owned() }),
                property: "createMockFactory".to_owned(),
            },
        ),
        args,
    };
    proof {
        reveal_with_fuel(view_expr, 6);
        reveal_with_fuel(view_args, 2);
        assert(r@ =~~= spec_create_mock_factory(id@));
    }
    r
}

/// The module id for which a matched mock call is owed a generated factory:
/// the argument list holds exactly one argument and it is a literal string.
fn factory_id_of_args(args: &Vec<Arg>) -> (r: Option<String>)
    ensures
        ({
            let av = view_args(args@);
            match r {
                Some(id) => av.len() == 1 && (av[0] matches ArgView::Item {
                    expr: ExprView::Str { .. },
                }) && id@ == av[0]->Item_expr->Str_value,
                None => !(av.len() == 1 && av[0] matches ArgView::Item {
                    expr: ExprView::Str { .. },
                }),
            }
        }),
{
    proof {
        reveal_with_fuel(view_expr, 2);
        reveal_with_fuel(crate::ast::view_arg, 2);
    }
    if args.len() == 1 {
        match &args[0] {
            Arg::Item { expr: Expr::Str { value } } => Some(value.clone()),
            _ => None,
        }
    } else {
        None
    }
}

/// Decides, for a call expression, whether the mock rewrite owes it a
/// generated factory, and for which module id: the call has fewer than two
/// arguments and its first is a literal string.
pub fn mock_factory_id(e: &Expr) -> (r: Option<String>)
    ensures
        ({
            let args = spec_args_of(e@);
            match r {
                Some(id) => args.len() == 1 && (args[0] matches ArgView::Item {
                    expr: ExprView::Str { .. },
                }) && id@ == args[0]->Item_expr->Str_value,
                None => !(args.len() == 1 && args[0] matches ArgView::Item {
                    expr: ExprView::Str { .. },
                }),
            }
        }),
{
    proof {
        reveal_with_fuel(view_expr, 2);
    }
    match e {
        Expr::Call { args, .. } => factory_id_of_args(args),
        _ => None,
    }
}

/// Decides whether a matched `jest.mock` call moves into the hoist queue:
/// every such call with at least one argument is hoisted.
pub fn mock_call_hoisted(e: &Expr) -> (r: bool)
    ensures
        r == spec_mock_hoisted(spec_args_of(e@)),
{
    proof {
        reveal_with_fuel(view_expr, 2);
    }
    match e {
        Expr::Call { args, .. } => args.len() >= 1,
        _ => false,
    }
}

/// Handles one call node whose children are already rewritten: renames a
/// matched mock call, appends the generated factory where one is owed, and
/// moves a `jest.mock` call with at least one argument into the queue.
fn convert_call_node(callee: Expr, args: Vec<Arg>, mocks: &mut Vec<Expr>) -> (r: Expr)
    ensures
        ({
            let node = ExprView::Call { callee: Box::new(callee@), args: view_args(args@) };
            let (er, qr) = conv_node(node, view_exprs(old(mocks)@));
            r@ == er && view_exprs(final(mocks)@) == qr
        }),
{
    let ghost node = ExprView::Call { callee: Box::new(callee@), args: view_args(args@) };
    let ghost q0 = view_exprs(old(mocks)@);
    match callee {
        Expr::Member { object, property } => {
            let jest_obj = crate::jest::is_jest_object(&object);
            let is_mock = jest_obj && crate::jest::str_eq(&property, "mock");
            let is_do_mock = jest_obj && crate::jest::str_eq(&property, "doMock");
            proof {
                reveal_with_fuel(view_expr, 2);
                assert(is_mock == spec_is_jest_mock_call(node));
                assert(is_do_mock == spec_is_jest_do_mock_call(node));
            }
            if is_mock || is_do_mock {
                let mut args = args;
                let ghost args0 = view_args(args@);
                let hoisted = args.len() >= 1;
                proof {
                    assert(hoisted == spec_mock_hoisted(args0));
                }
                if args.len() < 2 {
                    if let Some(id) = factory_id_of_args(&args) {
                        let f = create_mock_factory(&id);
                        args.push(Arg::Item { expr: f });
                        proof {
                            reveal_with_fuel(crate::ast::view_arg, 2);
                            assert(view_args(args@) =~= args0.push(
                                ArgView::Item { expr: spec_create_mock_factory(id@) },
                            ));
                        }
                    }
                }
                proof {
                    assert(view_args(args@) == spec_mock_args(args0));
                }
                let call = Expr::Call {
                    callee: Box::new(
                        Expr::Member { object, property: "unstable_mockModule".to_owned() },
                    ),
                    args,
                };
                proof {
                    reveal_with_fuel(view_expr, 2);
                    assert(call@ =~~= spec_renamed_mock(node));
                }
                if is_mock && hoisted {
                    mocks.push(call);
                    proof {
                        assert(view_exprs(final(mocks)@) =~= q0.push(spec_renamed_mock(node)));
                    }
                    Expr::Null
                } else {
                    call
                }
            } else {
                let r = Expr::Call {
                    callee: Box::new(Expr::Member { object, property }),
                    args,
                };
                proof {
                    reveal_with_fuel(view_expr, 2);
                    assert(r@ =~~= node);
                }
                r
            }
        },
        other => {
            let r = Expr::Call { callee: Box::new(other), args };
            proof {
                reveal_with_fuel(view_expr, 2);
                assert(r@ =~~= node);
                assert(!spec_is_jest_mock_call(node) && !spec_is_jest_do_mock_call(node));
            }
            r
        },
    }
}

/// Rewrites one expression depth first, pushing hoisted calls onto `mocks`.
fn convert_expr(e: &Expr, mocks: &mut Vec<Expr>) -> (r: Expr)
    ensures
        ({
            let (er, qr) = conv_expr(e@, view_exprs(old(mocks)@));
            r@ == er && view_exprs(final(mocks)@) == qr
        }),
    decreases *e, 1int,
{
    match e {
        Expr::Ident { name } => Expr::Ident { name: name.clone() },
        Expr::Str { value } => Expr::Str { value: value.clone() },
        Expr::Null => Expr::Null,
        Expr::Member { object, property } => {
            let o = convert_expr(object, mocks);
            Expr::Member { object: Box::new(o), property: property.clone() }
        },
        Expr::Await { argument } => {
            let a = convert_expr(argument, mocks);
            Expr::Await { argument: Box::new(a) }
        },
        Expr::ImportExpr { source } => {
            let s = convert_expr(source, mocks);
            Expr::ImportExpr { source: Box::new(s) }
        },
        Expr::Other { children } => {
            proof {
                assert(children@.subrange(0, children@.len() as int) =~= children@);
                assert(decreases_to!(*e => children@));
                assert(view_exprs(children@).subrange(0, children@.len() as int)
                    =~= view_exprs(children@));
            }
            let c = convert_exprs_vec(children, 0, mocks);
            Expr::Other { children: c }
        },
        Expr::Call { callee, args } => {
            let c = convert_expr(callee, mocks);
            proof {
                assert(args@.subrange(0, args@.len() as int) =~= args@);
                assert(decreases_to!(*e => args@));
                assert(view_args(args@).subrange(0, args@.len() as int) =~= view_args(args@));
            }
            let a = convert_args_vec(args, 0, mocks);
            convert_call_node(c, a, mocks)
        },
    }
}

/// Rewrites the elements of `v` from index `i` on, left to right.
fn convert_exprs_vec(v: &Vec<Expr>, i: usize, mocks: &mut Vec<Expr>) -> (r: Vec<Expr>)
    requires
        i <= v@.len(),
    ensures
        ({
            let (rs, qr) = conv_exprs(
                view_exprs(v@).subrange(i as int, v@.len() as int),
                view_exprs(old(mocks)@),
            );
            view_exprs(r@) == rs && view_exprs(final(mocks)@) == qr
        }),
    decreases v@.subrange(i as int, v@.len() as int), 0int,
{
    if i == v.len() {
        Vec::new()
    } else {
        proof {
            let s = v@.subrange(i as int, v@.len() as int);
            assert(v@[i as int] == s[0]);
            assert(decreases_to!(s => s[0]));
            assert(s.subrange(1, s.len() as int) =~= v@.subrange(i + 1, v@.len() as int));
            assert(decreases_to!(s => s.subrange(1, s.len() as int)));
        }
        let e = convert_expr(&v[i], mocks);
        let mut rest = convert_exprs_vec(v, i + 1, mocks);
        let ghost rest0 = rest@;
        rest.insert(0, e);
        proof {
            let s_all = view_exprs(v@).subrange(i as int, v@.len() as int);
            assert(s_all[0] == view_expr(v@[i as int]));
            assert(s_all.subrange(1, s_all.len() as int) =~= view_exprs(v@).subrange(
                i as int + 1,
                v@.len() as int,
            ));
            assert(view_exprs(rest@) =~= seq![e@] + view_exprs(rest0));
        }
        rest
    }
}

/// Rewrites the arguments of `v` from index `i` on, left to right.
fn convert_args_vec(v: &Vec<Arg>, i: usize, mocks: &mut Vec<Expr>) -> (r: Vec<Arg>)
    requires
        i <= v@.len(),
    ensures
        ({
            let (rs, qr) = conv_args(
                view_args(v@).subrange(i as int, v@.len() as int),
                view_exprs(old(mocks)@),
            );
            view_args(r@) == rs && view_exprs(final(mocks)@) == qr
        }),
    decreases v@.subrange(i as int, v@.len() as int), 0int,
{
    if i == v.len() {
        Vec::new()
    } else {
        proof {
            let s = v@.subrange(i as int, v@.len() as int);
            assert(v@[i as int] == s[0]);
            assert(decreases_to!(s => s[0]));
            assert(s.subrange(1, s.len() as int) =~= v@.subrange(i + 1, v@.len() as int));
            assert(decreases_to!(s => s.subrange(1, s.len() as int)));
        }
        let a = match &v[i] {
            Arg::Item { expr } => Arg::Item { expr: convert_expr(expr, mocks) },
            Arg::Spread { expr } => Arg::Spread { expr: convert_expr(expr, mocks) },
        };
        proof {
            let s_all = view_args(v@).subrange(i as int, v@.len() as int);
            let q0v = view_exprs(old(mocks)@);
            assert(s_all[0] == crate::ast::view_arg(v@[i as int]));
            assert(a@ == conv_arg(s_all[0], q0v).0);
            assert(view_exprs(mocks@) == conv_arg(s_all[0], q0v).1);
        }
        let mut rest = convert_args_vec(v, i + 1, mocks);
        let ghost rest0 = rest@;
        rest.insert(0, a);
        proof {
            let s_all = view_args(v@).subrange(i as int, v@.len() as int);
            assert(s_all[0] == crate::ast::view_arg(v@[i as int]));
            assert(s_all.subrange(1, s_all.len() as int) =~= view_args(v@).subrange(
                i as int + 1,
                v@.len() as int,
            ));
            assert(view_args(rest@) =~= seq![a@] + view_args(rest0));
        }
        rest
    }
}

/// Copies one import specifier.
fn clone_specifier(s: &ImportSpec) -> (r: ImportSpec)
    ensures
        r == *s,
{
    match s {
        ImportSpec::Default { local } => ImportSpec::Default { local: local.clone() },
        ImportSpec::Named { imported, local } => ImportSpec::Named {
            imported: imported.clone(),
            local: local.clone(),
        },
        ImportSpec::Namespace { local } => ImportSpec::Namespace { local: local.clone() },
    }
}

/// Copies a specifier list.
pub(crate) fn clone_specifiers(v: &Vec<ImportSpec>) -> (r: Vec<ImportSpec>)
    ensures
        r@ == v@,
{
    let mut out: Vec<ImportSpec> = Vec::new();
    let mut j: usize = 0;
    while j < v.len()
        invariant
            j <= v@.len(),
            out@ =~= v@.subrange(0, j as int),
        decreases v@.len() - j,
    {
        out.push(clone_specifier(&v[j]));
        j += 1;
    }
    proof {
        assert(out@ =~= v@);
    }
    out
}

/// Builds the dynamic-import replacement of the `n`-th import declaration.
fn make_dynamic_import(source: &String, specifiers: &Vec<ImportSpec>, n: usize) -> (r: Stmt)
    ensures
        r@ == spec_dynamic_import(source@, view_specifiers(specifiers@), n as nat),
{
    let mut decls: Vec<Declarator> = Vec::new();
    decls.push(
        Declarator {
            name: make_import_name(n),
            init: Expr::Await {
                argument: Box::new(
                    Expr::ImportExpr { source: Box::new(Expr::Str { value: source.clone() }) },
                ),
            },
        },
    );
    proof {
        reveal_with_fuel(view_expr, 4);
        assert(decls@[0]@ =~~= spec_dynamic_import(
            source@,
            view_specifiers(specifiers@),
            n as nat,
        )->ConstDecl_declarators[0]);
    }
    let mut j: usize = 0;
    while j < specifiers.len()
        invariant
            j <= specifiers@.len(),
            decls@.len() == j + 1,
            decls@[0]@ == spec_dynamic_import(
                source@,
                view_specifiers(specifiers@),
                n as nat,
            )->ConstDecl_declarators[0],
            forall|k: int|
                0 <= k < j ==> decls@[k + 1]@ == spec_specifier_declarator(
                    specifiers@[k]@,
                    n as nat,
                ),
        decreases specifiers@.len() - j,
    {
        let d = match &specifiers[j] {
            ImportSpec::Default { local } => Declarator {
                name: local.clone(),
                init: Expr::Member {
                    object: Box::new(Expr::Ident { name: make_import_name(n) }),
                    property: "default".to_owned(),
                },
            },
            ImportSpec::Named { imported, local } => Declarator {
                name: local.clone(),
                init: Expr::Member {
                    object: Box::new(Expr::Ident { name: make_import_name(n) }),
                    property: imported.clone(),
                },
            },
            ImportSpec::Namespace { local } => Declarator {
                name: local.clone(),
                init: Expr::Ident { name: make_import_name(n) },
            },
        };
        proof {
            reveal_with_fuel(view_expr, 3);
            assert(d@ =~~= spec_specifier_declarator(specifiers@[j as int]@, n as nat));
        }
        decls.push(d);
        j += 1;
    }
    let r = Stmt::ConstDecl { declarators: decls };
    proof {
        assert(r@->ConstDecl_declarators =~~= spec_dynamic_import(
            source@,
            view_specifiers(specifiers@),
            n as nat,
        )->ConstDecl_declarators);
        assert(r@ =~~= spec_dynamic_import(source@, view_specifiers(specifiers@), n as nat));
    }
    r
}

/// Rewrites the declarators of `v` from index `i` on, left to right.
fn convert_decls_vec(v: &Vec<Declarator>, i: usize, mocks: &mut Vec<Expr>) -> (r: Vec<Declarator>)
    requires
        i <= v@.len(),
    ensures
        ({
            let (rs, qr) = conv_decls(
                v@.map_values(|d: Declarator| d@).subrange(i as int, v@.len() as int),
                view_exprs(old(mocks)@),
            );
            r@.map_values(|d: Declarator| d@) == rs && view_exprs(final(mocks)@) == qr
        }),
    decreases v@.len() - i,
{
    if i == v.len() {
        Vec::new()
    } else {
        let d = Declarator { name: v[i].name.clone(), init: convert_expr(&v[i].init, mocks) };
        let mut rest = convert_decls_vec(v, i + 1, mocks);
        let ghost rest0 = rest@;
        rest.insert(0, d);
        proof {
            let s_all = v@.map_values(|x: Declarator| x@).subrange(i as int, v@.len() as int);
            assert(s_all.subrange(1, s_all.len() as int) =~= v@.map_values(
                |x: Declarator| x@,
            ).subrange(i as int + 1, v@.len() as int));
            assert(rest@.map_values(|x: Declarator| x@) =~= seq![d@] + rest0.map_values(
                |x: Declarator| x@,
            ));
        }
        rest
    }
}

/// Rewrites the statements of `v` from index `i` on, left to right.
fn convert_stmts_vec(v: &Vec<Stmt>, i: usize, mocks: &mut Vec<Expr>) -> (r: Vec<Stmt>)
    requires
        i <= v@.len(),
    ensures
        ({
            let (rs, qr) = conv_stmts(
                view_stmts(v@).subrange(i as int, v@.len() as int),
                view_exprs(old(mocks)@),
            );
            view_stmts(r@) == rs && view_exprs(final(mocks)@) == qr
        }),
    decreases v@.len() - i,
{
    if i == v.len() {
        Vec::new()
    } else {
        let t = match &v[i] {
            Stmt::Expr { expr } => Stmt::Expr { expr: convert_expr(expr, mocks) },
            Stmt::Import { source, specifiers } => Stmt::Import {
                source: source.clone(),
                specifiers: clone_specifiers(specifiers),
            },
            Stmt::ConstDecl { declarators } => {
                proof {
                    assert(declarators@.map_values(|d: Declarator| d@).subrange(
                        0,
                        declarators@.len() as int,
                    ) =~= declarators@.map_values(|d: Declarator| d@));
                }
                Stmt::ConstDecl { declarators: convert_decls_vec(declarators, 0, mocks) }
            },
            Stmt::Other { exprs } => {
                proof {
                    assert(view_exprs(exprs@).subrange(0, exprs@.len() as int) =~= view_exprs(
                        exprs@,
                    ));
                }
                Stmt::Other { exprs: convert_exprs_vec(exprs, 0, mocks) }
            },
        };
        proof {
            let s_all = view_stmts(v@).subrange(i as int, v@.len() as int);
            assert(s_all[0] == v@[i as int]@);
            assert(t@ == conv_stmt(s_all[0], view_exprs(old(mocks)@)).0);
        }
        let mut rest = convert_stmts_vec(v, i + 1, mocks);
        let ghost rest0 = rest@;
        rest.insert(0, t);
        proof {
            let s_all = view_stmts(v@).subrange(i as int, v@.len() as int);
            assert(s_all.subrange(1, s_all.len() as int) =~= view_stmts(v@).subrange(
                i as int + 1,
                v@.len() as int,
            ));
            assert(view_stmts(rest@) =~= seq![t@] + view_stmts(rest0));
        }
        rest
    }
}

/// Deletes the placeholder statements left by extracted calls.
fn remove_placeholders(v: Vec<Stmt>) -> (r: Vec<Stmt>)
    ensures
        view_stmts(r@) == spec_remove_placeholders(view_stmts(v@)),
    decreases v@.len(),
{
    let mut v = v;
    if v.len() == 0 {
        proof {
            assert(view_stmts(v@) =~= Seq::<StmtView>::empty());
        }
        v
    } else {
        let ghost v0 = v@;
        let s0 = v.remove(0);
        let keep = !(matches!(&s0, Stmt::Expr { expr: Expr::Null }));
        proof {
            assert(keep == spec_keep_stmt(s0@));
            assert(view_stmts(v@) =~= view_stmts(v0).subrange(1, view_stmts(v0).len() as int));
        }
        let mut rest = remove_placeholders(v);
        if keep {
            let ghost rest0 = rest@;
            rest.insert(0, s0);
            proof {
                assert(view_stmts(rest@) =~= seq![s0@] + view_stmts(rest0));
            }
        }
        rest
    }
}

/// Replaces every import declaration, numbering conversions from `n` on.
fn rewrite_imports_vec(v: Vec<Stmt>, n: usize) -> (r: Vec<Stmt>)
    requires
        n + v@.len() <= usize::MAX,
    ensures
        view_stmts(r@) == spec_rewrite_imports(view_stmts(v@), n as nat),
    decreases v@.len(),
{
    let mut v = v;
    if v.len() == 0 {
        proof {
            assert(view_stmts(v@) =~= Seq::<StmtView>::empty());
        }
        v
    } else {
        let ghost v0 = v@;
        let s0 = v.remove(0);
        proof {
            assert(view_stmts(v@) =~= view_stmts(v0).subrange(1, view_stmts(v0).len() as int));
        }
        match s0 {
            Stmt::Import { source, specifiers } => {
                let d = make_dynamic_import(&source, &specifiers, n);
                let mut rest = rewrite_imports_vec(v, n + 1);
                let ghost rest0 = rest@;
                rest.insert(0, d);
                proof {
                    assert(view_stmts(rest@) =~= seq![d@] + view_stmts(rest0));
                }
                rest
            },
            other => {
                let mut rest = rewrite_imports_vec(v, n);
                let ghost rest0 = rest@;
                rest.insert(0, other);
                proof {
                    assert(view_stmts(rest@) =~= seq![other@] + view_stmts(rest0));
                }
                rest
            },
        }
    }
}

/// The ConvertMocks pass: detects, rewrites and hoists mock-registration
/// calls, and converts static imports once any hoisting occurred.
pub struct ConvertMocks;

impl ConvertMocks {
    /// Makes the pass.
    pub fn new() -> (r: Self) {
        ConvertMocks
    }

    /// Runs the pass over one program.
    pub fn process(&self, p: Program) -> (r: Program)
        ensures
            r@ == spec_convert_mocks(p@),
    {
        let Program { body } = p;
        proof {
            assert(view_stmts(body@).subrange(0, body@.len() as int) =~= view_stmts(body@));
        }
        let mut mocks: Vec<Expr> = Vec::new();
        let body1 = convert_stmts_vec(&body, 0, &mut mocks);
        let body2 = remove_placeholders(body1);
        let ghost qv = view_exprs(mocks@);
        let ghost body2v = view_stmts(body2@);
        let had_mocks = mocks.len() > 0;
        let mut out: Vec<Stmt> = Vec::new();
        let mut mocks = mocks;
        while mocks.len() > 0
            invariant
                view_exprs(mocks@) =~= qv.subrange(
                    out@.len() as int,
                    qv.len() as int,
                ),
                out@.len() <= qv.len(),
                view_stmts(out@) =~= Seq::new(
                    out@.len() as nat,
                    |k: int| StmtView::Expr { expr: qv[k] },
                ),
            decreases mocks@.len(),
        {
            let ghost k = out@.len() as int;
            let ghost mv = mocks@;
            let ghost outv = out@;
            let m = mocks.remove(0);
            proof {
                assert(view_exprs(mv) =~= qv.subrange(k, qv.len() as int));
                assert(view_exprs(mv)[0] == view_expr(mv[0]));
                assert(m@ == qv[k]);
                assert forall|j: int| 0 <= j < mocks@.len() implies view_exprs(mocks@)[j] == qv[k
                    + 1 + j] by {
                    assert(mocks@[j] == mv[j + 1]);
                    assert(view_exprs(mv)[j + 1] == view_expr(mv[j + 1]));
                }
                assert(view_exprs(mocks@) =~= qv.subrange(k + 1, qv.len() as int));
            }
            out.push(Stmt::Expr { expr: m });
            proof {
                assert forall|j: int| 0 <= j < out@.len() implies view_stmts(out@)[j]
                    == (StmtView::Expr { expr: qv[j] }) by {
                    if j < k {
                        assert(view_stmts(outv)[j] == (StmtView::Expr { expr: qv[j] }));
                        assert(out@[j] == outv[j]);
                    } else {
                        assert(out@[j] == (Stmt::Expr { expr: m }));
                    }
                }
                assert(view_stmts(out@) =~= Seq::new(
                    out@.len() as nat,
                    |j: int| StmtView::Expr { expr: qv[j] },
                ));
            }
        }
        let mut body2 = body2;
        while body2.len() > 0
            invariant
                view_stmts(out@) =~= Seq::new(
                    qv.len(),
                    |k: int| StmtView::Expr { expr: qv[k] },
                ) + body2v.subrange(0, body2v.len() - body2@.len()),
                body2@.len() <= body2v.len(),
                view_stmts(body2@) =~= body2v.subrange(
                    body2v.len() - body2@.len(),
                    body2v.len() as int,
                ),
            decreases body2@.len(),
        {
            let ghost bv = body2@;
            let ghost outv = out@;
            let ghost d = body2v.len() - bv.len();
            let s = body2.remove(0);
            out.push(s);
            proof {
                assert(view_stmts(bv) =~= body2v.subrange(d, body2v.len() as int));
                assert(view_stmts(bv)[0] == bv[0]@);
                assert(s@ == body2v[d]);
                assert forall|j: int| 0 <= j < body2@.len() implies view_stmts(body2@)[j]
                    == body2v[d + 1 + j] by {
                    assert(body2@[j] == bv[j + 1]);
                    assert(view_stmts(bv)[j + 1] == bv[j + 1]@);
                }
                assert(view_stmts(body2@) =~= body2v.subrange(
                    body2v.len() - body2@.len(),
                    body2v.len() as int,
                ));
                assert(view_stmts(outv).len() == outv.len());
                assert(outv.len() == qv.len() + d);
                assert(0 <= d + 1 <= body2v.len());
                assert forall|j: int| 0 <= j < out@.len() implies view_stmts(out@)[j]
                    == (Seq::new(qv.len(), |k: int| StmtView::Expr { expr: qv[k] })
                    + body2v.subrange(0, d + 1))[j] by {
                    if j < outv.len() {
                        assert(out@[j] == outv[j]);
                        assert(view_stmts(outv)[j] == outv[j]@);
                        if j < qv.len() {
                            assert((Seq::new(qv.len(), |k: int| StmtView::Expr { expr: qv[k] })
                                + body2v.subrange(0, d))[j] == (Seq::new(
                                qv.len(),
                                |k: int| StmtView::Expr { expr: qv[k] },
                            ) + body2v.subrange(0, d + 1))[j]);
                        } else {
                            assert(body2v.subrange(0, d)[j - qv.len()] == body2v[j - qv.len()]);
                            assert(body2v.subrange(0, d + 1)[j - qv.len()] == body2v[j
                                - qv.len()]);
                        }
                    } else {
                        assert(j == qv.len() + d);
                        assert(out@[j] == s);
                        assert((Seq::new(qv.len(), |k: int| StmtView::Expr { expr: qv[k] })
                            + body2v.subrange(0, d + 1))[j] == body2v.subrange(0, d + 1)[d]);
                        assert(body2v.subrange(0, d + 1)[d] == body2v[d]);
                    }
                }
                assert(view_stmts(out@) =~= Seq::new(
                    qv.len(),
                    |k: int| StmtView::Expr { expr: qv[k] },
                ) + body2v.subrange(0, body2v.len() - body2@.len()));
            }
        }
        proof {
            assert(view_stmts(out@) =~= Seq::new(
                qv.len(),
                |k: int| StmtView::Expr { expr: qv[k] },
            ) + body2v);
        }
        if had_mocks {
            proof {
                assert(out.len() == out@.len());
            }
            let r = Program { body: rewrite_imports_vec(out, 0) };
            proof {
                assert(r@ =~~= spec_convert_mocks(p@));
            }
            r
        } else {
            let r = Program { body: out };
            proof {
                assert(r@ =~~= spec_convert_mocks(p@));
            }
            r
        }
    }
}

} // verus!
