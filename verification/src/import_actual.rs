//! The ImportActual pass.
//!
//! Hoists "require actual module" calls into awaited top-level dynamic
//! imports: every `jest.requireActual(id)` call whose `id` is a literal
//! string is assigned the next 0-based index, recorded in the actual-import
//! registry, and replaced in place by the synthetic identifier of that index;
//! at the end, one `const` declaration binding every recorded index to an
//! awaited dynamic import of its module id is prepended. Repeated module ids
//! are not deduplicated: each call site gets its own slot. A call whose first
//! argument is not a literal string is left unmodified.

use vstd::prelude::*;

use crate::ast::{
    view_args, view_expr, view_exprs, Arg, ArgView, Declarator, DeclaratorView, Expr, ExprView,
    Program, ProgramView, Stmt, StmtView,
};
use crate::convert_mocks::view_stmts;
use crate::jest::{is_jest_object, spec_is_jest_require_actual_call, str_eq};
use crate::names::{actual_name, make_actual_name};

verus! {

broadcast use crate::ast::lemma_view_exprs, crate::ast::lemma_view_args;

/// The views of a sequence of module ids.
pub open spec fn view_strings(s: Seq<String>) -> Seq<Seq<char>> {
    s.map_values(|x: String| x@)
}

/// What the pass does to one node whose children are already rewritten,
/// together with the registry: a matched `jest.requireActual` call with a
/// literal string first argument becomes the synthetic identifier of the next
/// index, and its module id is recorded; everything else is untouched.
pub open spec fn act_node(e: ExprView, reg: Seq<Seq<char>>) -> (ExprView, Seq<Seq<char>>) {
    if spec_is_jest_require_actual_call(e) && crate::convert_mocks::spec_args_of(e).len() >= 1
        && crate::convert_mocks::spec_args_of(e)[0] matches ArgView::Item {
        expr: ExprView::Str { value },
    } {
        (
            ExprView::Ident { name: actual_name(reg.len()) },
            reg.push(crate::convert_mocks::spec_args_of(e)[0]->Item_expr->Str_value),
        )
    } else {
        (e, reg)
    }
}

/// The depth-first rewrite of one expression, threading the registry:
/// children are rewritten left to right before the node itself is handled.
pub open spec fn act_expr(e: ExprView, reg: Seq<Seq<char>>) -> (ExprView, Seq<Seq<char>>)
    decreases e, 1int,
{
    match e {
        ExprView::Member { object, property } => {
            let (o, r1) = act_expr(*object, reg);
            (ExprView::Member { object: Box::new(o), property }, r1)
        },
        ExprView::Call { callee, args } => {
            let (c, r1) = act_expr(*callee, reg);
            let (a, r2) = act_args(args, r1);
            act_node(ExprView::Call { callee: Box::new(c), args: a }, r2)
        },
        ExprView::Await { argument } => {
            let (a, r1) = act_expr(*argument, reg);
            (ExprView::Await { argument: Box::new(a) }, r1)
        },
        ExprView::ImportExpr { source } => {
            let (s, r1) = act_expr(*source, reg);
            (ExprView::ImportExpr { source: Box::new(s) }, r1)
        },
        ExprView::Other { children } => {
            let (c, r1) = act_exprs(children, reg);
            (ExprView::Other { children: c }, r1)
        },
        _ => (e, reg),
    }
}

/// The rewrite of a sequence of expressions, left to right.
pub open spec fn act_exprs(s: Seq<ExprView>, reg: Seq<Seq<char>>) -> (Seq<ExprView>, Seq<
    Seq<char>,
>)
    decreases s, 0int,
{
    if s.len() == 0 {
        (Seq::empty(), reg)
    } else {
        let (e, r1) = act_expr(s[0], reg);
        let (rest, r2) = act_exprs(s.subrange(1, s.len() as int), r1);
        (seq![e] + rest, r2)
    }
}

/// The rewrite of one call argument.
pub open spec fn act_arg(a: ArgView, reg: Seq<Seq<char>>) -> (ArgView, Seq<Seq<char>>)
    decreases a, 1int,
{
    match a {
        ArgView::Item { expr } => {
            let (e, r1) = act_expr(expr, reg);
            (ArgView::Item { expr: e }, r1)
        },
        ArgView::Spread { expr } => {
            let (e, r1) = act_expr(expr, reg);
            (ArgView::Spread { expr: e }, r1)
        },
    }
}

/// The rewrite of an argument list, left to right.
pub open spec fn act_args(s: Seq<ArgView>, reg: Seq<Seq<char>>) -> (Seq<ArgView>, Seq<Seq<char>>)
    decreases s, 0int,
{
    if s.len() == 0 {
        (Seq::empty(), reg)
    } else {
        let (a, r1) = act_arg(s[0], reg);
        let (rest, r2) = act_args(s.subrange(1, s.len() as int), r1);
        (seq![a] + rest, r2)
    }
}

/// The rewrite of a declarator list, left to right.
pub open spec fn act_decls(s: Seq<DeclaratorView>, reg: Seq<Seq<char>>) -> (Seq<DeclaratorView>, Seq<
    Seq<char>,
>)
    decreases s,
{
    if s.len() == 0 {
        (Seq::empty(), reg)
    } else {
        let (e, r1) = act_expr(s[0].init, reg);
        let (rest, r2) = act_decls(s.subrange(1, s.len() as int), r1);
        (seq![DeclaratorView { name: s[0].name, init: e }] + rest, r2)
    }
}

/// The rewrite of the expressions of one statement.
pub open spec fn act_stmt(s: StmtView, reg: Seq<Seq<char>>) -> (StmtView, Seq<Seq<char>>) {
    match s {
        StmtView::Expr { expr } => {
            let (e, r1) = act_expr(expr, reg);
            (StmtView::Expr { expr: e }, r1)
        },
        StmtView::ConstDecl { declarators } => {
            let (d, r1) = act_decls(declarators, reg);
            (StmtView::ConstDecl { declarators: d }, r1)
        },
        StmtView::Other { exprs } => {
            let (e, r1) = act_exprs(exprs, reg);
            (StmtView::Other { exprs: e }, r1)
        },
        _ => (s, reg),
    }
}

/// The rewrite of the statement list, left to right.
pub open spec fn act_stmts(s: Seq<StmtView>, reg: Seq<Seq<char>>) -> (Seq<StmtView>, Seq<
    Seq<char>,
>)
    decreases s,
{
    if s.len() == 0 {
        (Seq::empty(), reg)
    } else {
        let (t, r1) = act_stmt(s[0], reg);
        let (rest, r2) = act_stmts(s.subrange(1, s.len() as int), r1);
        (seq![t] + rest, r2)
    }
}

/// The prepended declaration: one declarator per registry entry, in index
/// order, each binding the synthetic identifier to an awaited dynamic import
/// of its module id.
pub open spec fn spec_actual_decl(reg: Seq<Seq<char>>) -> StmtView {
    StmtView::ConstDecl {
        declarators: Seq::new(
            reg.len(),
            |i: int| DeclaratorView {
                name: actual_name(i as nat),
                init: ExprView::Await {
                    argument: Box::new(
                        ExprView::ImportExpr { source: Box::new(ExprView::Str { value: reg[i] }) },
                    ),
                },
            },
        ),
    }
}

/// The whole pass: rewrite every matched call collecting the registry, then,
/// when the registry is non-empty, prepend the declaration that binds every
/// recorded index.
pub open spec fn spec_import_actual(p: ProgramView) -> ProgramView {
    let (body, reg) = act_stmts(p.body, Seq::empty());
    if reg.len() > 0 {
        ProgramView { body: seq![spec_actual_decl(reg)] + body }
    } else {
        ProgramView { body }
    }
}

/// The module id of a rewritable "require actual" call: the first argument
/// when it is a literal string.
fn actual_id_of_args(args: &Vec<Arg>) -> (r: Option<String>)
    ensures
        ({
            let av = view_args(args@);
            match r {
                Some(id) => av.len() >= 1 && (av[0] matches ArgView::Item {
                    expr: ExprView::Str { .. },
                }) && id@ == av[0]->Item_expr->Str_value,
                None => !(av.len() >= 1 && av[0] matches ArgView::Item {
                    expr: ExprView::Str { .. },
                }),
            }
        }),
{
    proof {
        reveal_with_fuel(view_expr, 2);
        reveal_with_fuel(crate::ast::view_arg, 2);
    }
    if args.len() >= 1 {
        match &args[0] {
            Arg::Item { expr: Expr::Str { value } } => Some(value.clone()),
            _ => None,
        }
    } else {
        None
    }
}

/// Decides, for a call expression, whether the "require actual" rewrite
/// applies to its arguments, and for which module id: the first argument is
/// a literal string.
pub fn require_actual_id(e: &Expr) -> (r: Option<String>)
    ensures
        ({
            let args = crate::convert_mocks::spec_args_of(e@);
            match r {
                Some(id) => args.len() >= 1 && (args[0] matches ArgView::Item {
                    expr: ExprView::Str { .. },
                }) && id@ == args[0]->Item_expr->Str_value,
                None => !(args.len() >= 1 && args[0] matches ArgView::Item {
                    expr: ExprView::Str { .. },
                }),
            }
        }),
{
    proof {
        reveal_with_fuel(view_expr, 2);
    }
    match e {
        Expr::Call { args, .. } => actual_id_of_args(args),
        _ => None,
    }
}

/// Handles one call node whose children are already rewritten: a matched
/// `jest.requireActual` call with a literal string module id is replaced by
/// its synthetic identifier, and the id recorded.
fn actual_call_node(callee: Expr, args: Vec<Arg>, reg: &mut Vec<String>) -> (r: Expr)
    ensures
        ({
            let node = ExprView::Call { callee: Box::new(callee@), args: view_args(args@) };
            let (er, rr) = act_node(node, view_strings(old(reg)@));
            r@ == er && view_strings(final(reg)@) == rr
        }),
{
    let ghost node = ExprView::Call { callee: Box::new(callee@), args: view_args(args@) };
    let matched = match &callee {
        Expr::Member { object, property } => {
            is_jest_object(object) && str_eq(property, "requireActual")
        },
        _ => false,
    };
    proof {
        reveal_with_fuel(view_expr, 2);
        assert(matched == spec_is_jest_require_actual_call(node));
    }
    if matched {
        if let Some(id) = actual_id_of_args(&args) {
            let name = make_actual_name(reg.len());
            let ghost reg0 = view_strings(reg@);
            reg.push(id);
            let r = Expr::Ident { name };
            proof {
                assert(view_strings(reg@) =~= reg0.push(id@));
                assert(reg.len() == reg@.len());
            }
            return r;
        }
    }
    let r = Expr::Call { callee: Box::new(callee), args };
    proof {
        reveal_with_fuel(view_expr, 2);
        assert(r@ =~~= node);
    }
    r
}

/// Rewrites one expression depth first, recording matched calls in `reg`.
fn actual_expr(e: &Expr, reg: &mut Vec<String>) -> (r: Expr)
    ensures
        ({
            let (er, rr) = act_expr(e@, view_strings(old(reg)@));
            r@ == er && view_strings(final(reg)@) == rr
        }),
    decreases *e, 1int,
{
    match e {
        Expr::Ident { name } => Expr::Ident { name: name.clone() },
        Expr::Str { value } => Expr::Str { value: value.clone() },
        Expr::Null => Expr::Null,
        Expr::Member { object, property } => {
            let o = actual_expr(object, reg);
            Expr::Member { object: Box::new(o), property: property.clone() }
        },
        Expr::Await { argument } => {
            let a = actual_expr(argument, reg);
            Expr::Await { argument: Box::new(a) }
        },
        Expr::ImportExpr { source } => {
            let s = actual_expr(source, reg);
            Expr::ImportExpr { source: Box::new(s) }
        },
        Expr::Other { children } => {
            proof {
                assert(children@.subrange(0, children@.len() as int) =~= children@);
                assert(decreases_to!(*e => children@));
                assert(view_exprs(children@).subrange(0, children@.len() as int) =~= view_exprs(
                    children@,
                ));
            }
            let c = actual_exprs_vec(children, 0, reg);
            Expr::Other { children: c }
        },
        Expr::Call { callee, args } => {
            let c = actual_expr(callee, reg);
            proof {
                assert(args@.subrange(0, args@.len() as int) =~= args@);
                assert(decreases_to!(*e => args@));
                assert(view_args(args@).subrange(0, args@.len() as int) =~= view_args(args@));
            }
            let a = actual_args_vec(args, 0, reg);
            actual_call_node(c, a, reg)
        },
    }
}

/// Rewrites the elements of `v` from index `i` on, left to right.
fn actual_exprs_vec(v: &Vec<Expr>, i: usize, reg: &mut Vec<String>) -> (r: Vec<Expr>)
    requires
        i <= v@.len(),
    ensures
        ({
            let (rs, rr) = act_exprs(
                view_exprs(v@).subrange(i as int, v@.len() as int),
                view_strings(old(reg)@),
            );
            view_exprs(r@) == rs && view_strings(final(reg)@) == rr
        }),
    decreases v@.subrange(i as int, v@.len() as int), 0int,
{
    if i == v.len() {
        Vec::new()
    } else {
        proof {
            let s = v@.subrange(i as int, v@.len() as int);
            assert(v@[i as int] == s[0]);
            assert(decreases_to!(s => s[0]));
            assert(s.subrange(1, s.len() as int) =~= v@.subrange(i + 1, v@.len() as int));
            assert(decreases_to!(s => s.subrange(1, s.len() as int)));
        }
        let e = actual_expr(&v[i], reg);
        let mut rest = actual_exprs_vec(v, i + 1, reg);
        let ghost rest0 = rest@;
        rest.insert(0, e);
        proof {
            let s_all = view_exprs(v@).subrange(i as int, v@.len() as int);
            assert(s_all[0] == view_expr(v@[i as int]));
            assert(s_all.subrange(1, s_all.len() as int) =~= view_exprs(v@).subrange(
                i as int + 1,
                v@.len() as int,
            ));
            assert(view_exprs(rest@) =~= seq![e@] + view_exprs(rest0));
        }
        rest
    }
}

/// Rewrites the arguments of `v` from index `i` on, left to right.
fn actual_args_vec(v: &Vec<Arg>, i: usize, reg: &mut Vec<String>) -> (r: Vec<Arg>)
    requires
        i <= v@.len(),
    ensures
        ({
            let (rs, rr) = act_args(
                view_args(v@).subrange(i as int, v@.len() as int),
                view_strings(old(reg)@),
            );
            view_args(r@) == rs && view_strings(final(reg)@) == rr
        }),
    decreases v@.subrange(i as int, v@.len() as int), 0int,
{
    if i == v.len() {
        Vec::new()
    } else {
        proof {
            let s = v@.subrange(i as int, v@.len() as int);
            assert(v@[i as int] == s[0]);
            assert(decreases_to!(s => s[0]));
            assert(s.subrange(1, s.len() as int) =~= v@.subrange(i + 1, v@.len() as int));
            assert(decreases_to!(s => s.subrange(1, s.len() as int)));
        }
        let a = match &v[i] {
            Arg::Item { expr } => Arg::Item { expr: actual_expr(expr, reg) },
            Arg::Spread { expr } => Arg::Spread { expr: actual_expr(expr, reg) },
        };
        proof {
            let s_all = view_args(v@).subrange(i as int, v@.len() as int);
            let r0v = view_strings(old(reg)@);
            assert(s_all[0] == crate::ast::view_arg(v@[i as int]));
            assert(a@ == act_arg(s_all[0], r0v).0);
            assert(view_strings(reg@) == act_arg(s_all[0], r0v).1);
        }
        let mut rest = actual_args_vec(v, i + 1, reg);
        let ghost rest0 = rest@;
        rest.insert(0, a);
        proof {
            let s_all = view_args(v@).subrange(i as int, v@.len() as int);
            assert(s_all.subrange(1, s_all.len() as int) =~= view_args(v@).subrange(
                i as int + 1,
                v@.len() as int,
            ));
            assert(view_args(rest@) =~= seq![a@] + view_args(rest0));
        }
        rest
    }
}

/// Rewrites the declarators of `v` from index `i` on, left to right.
fn actual_decls_vec(v: &Vec<Declarator>, i: usize, reg: &mut Vec<String>) -> (r: Vec<Declarator>)
    requires
        i <= v@.len(),
    ensures
        ({
            let (rs, rr) = act_decls(
                v@.map_values(|d: Declarator| d@).subrange(i as int, v@.len() as int),
                view_strings(old(reg)@),
            );
            r@.map_values(|d: Declarator| d@) == rs && view_strings(final(reg)@) == rr
        }),
    decreases v@.len() - i,
{
    if i == v.len() {
        Vec::new()
    } else {
        let d = Declarator { name: v[i].name.clone(), init: actual_expr(&v[i].init, reg) };
        let mut rest = actual_decls_vec(v, i + 1, reg);
        let ghost rest0 = rest@;
        rest.insert(0, d);
        proof {
            let s_all = v@.map_values(|x: Declarator| x@).subrange(i as int, v@.len() as int);
            assert(s_all.subrange(1, s_all.len() as int) =~= v@.map_values(
                |x: Declarator| x@,
            ).subrange(i as int + 1, v@.len() as int));
            assert(rest@.map_values(|x: Declarator| x@) =~= seq![d@] + rest0.map_values(
                |x: Declarator| x@,
            ));
        }
        rest
    }
}

/// Rewrites the statements of `v` from index `i` on, left to right.
fn actual_stmts_vec(v: &Vec<Stmt>, i: usize, reg: &mut Vec<String>) -> (r: Vec<Stmt>)
    requires
        i <= v@.len(),
    ensures
        ({
            let (rs, rr) = act_stmts(
                view_stmts(v@).subrange(i as int, v@.len() as int),
                view_strings(old(reg)@),
            );
            view_stmts(r@) == rs && view_strings(final(reg)@) == rr
        }),
    decreases v@.len() - i,
{
    if i == v.len() {
        Vec::new()
    } else {
        let t = match &v[i] {
            Stmt::Expr { expr } => Stmt::Expr { expr: actual_expr(expr, reg) },
            Stmt::Import { source, specifiers } => Stmt::Import {
                source: source.clone(),
                specifiers: crate::convert_mocks::clone_specifiers(specifiers),
            },
            Stmt::ConstDecl { declarators } => {
                proof {
                    assert(declarators@.map_values(|d: Declarator| d@).subrange(
                        0,
                        declarators@.len() as int,
                    ) =~= declarators@.map_values(|d: Declarator| d@));
                }
                Stmt::ConstDecl { declarators: actual_decls_vec(declarators, 0, reg) }
            },
            Stmt::Other { exprs } => {
                proof {
                    assert(view_exprs(exprs@).subrange(0, exprs@.len() as int) =~= view_exprs(
                        exprs@,
                    ));
                }
                Stmt::Other { exprs: actual_exprs_vec(exprs, 0, reg) }
            },
        };
        proof {
            let s_all = view_stmts(v@).subrange(i as int, v@.len() as int);
            assert(s_all[0] == v@[i as int]@);
            assert(t@ == act_stmt(s_all[0], view_strings(old(reg)@)).0);
        }
        let mut rest = actual_stmts_vec(v, i + 1, reg);
        let ghost rest0 = rest@;
        rest.insert(0, t);
        proof {
            let s_all = view_stmts(v@).subrange(i as int, v@.len() as int);
            assert(s_all.subrange(1, s_all.len() as int) =~= view_stmts(v@).subrange(
                i as int + 1,
                v@.len() as int,
            ));
            assert(view_stmts(rest@) =~= seq![t@] + view_stmts(rest0));
        }
        rest
    }
}

/// Builds the prepended declaration from the registry.
fn make_actual_decl(reg: &Vec<String>) -> (r: Stmt)
    ensures
        r@ == spec_actual_decl(view_strings(reg@)),
{
    let mut decls: Vec<Declarator> = Vec::new();
    let mut j: usize = 0;
    while j < reg.len()
        invariant
            j <= reg@.len(),
            decls@.len() == j,
            forall|k: int|
                0 <= k < j ==> decls@[k]@ == spec_actual_decl(view_strings(reg@))
                    ->ConstDecl_declarators[k],
        decreases reg@.len() - j,
    {
        let d = Declarator {
            name: make_actual_name(j),
            init: Expr::Await {
                argument: Box::new(
                    Expr::ImportExpr { source: Box::new(Expr::Str { value: reg[j].clone() }) },
                ),
            },
        };
        proof {
            reveal_with_fuel(view_expr, 4);
            assert(d@ =~~= spec_actual_decl(view_strings(reg@))->ConstDecl_declarators[j as int]);
        }
        decls.push(d);
        j += 1;
    }
    let r = Stmt::ConstDecl { declarators: decls };
    proof {
        assert(r@->ConstDecl_declarators =~~= spec_actual_decl(
            view_strings(reg@),
        )->ConstDecl_declarators);
        assert(r@ =~~= spec_actual_decl(view_strings(reg@)));
    }
    r
}

/// The ImportActual pass: turns "require actual" calls into indexed synthetic
/// bindings over awaited dynamic imports, hoisted to the top of the module.
pub struct ImportActual;

impl ImportActual {
    /// Makes the pass.
    pub fn new() -> (r: Self) {
        ImportActual
    }

    /// Runs the pass over one program.
    pub fn process(&self, p: Program) -> (r: Program)
        ensures
            r@ == spec_import_actual(p@),
    {
        proof {
            assert(view_stmts(p.body@).subrange(0, p.body@.len() as int) =~= view_stmts(p.body@));
        }
        let mut reg: Vec<String> = Vec::new();
        proof {
            assert(view_strings(reg@) =~= Seq::<Seq<char>>::empty());
        }
        let mut body = actual_stmts_vec(&p.body, 0, &mut reg);
        if reg.len() > 0 {
            let d = make_actual_decl(&reg);
            let ghost b0 = body@;
            body.insert(0, d);
            proof {
                assert(view_stmts(body@) =~= seq![d@] + view_stmts(b0));
            }
            let r = Program { body };
            proof {
                assert(r@ =~~= spec_import_actual(p@));
            }
            r
        } else {
            let r = Program { body };
            proof {
                assert(r@ =~~= spec_import_actual(p@));
            }
            r
        }
    }
}

} // verus!
