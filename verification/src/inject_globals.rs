//! The InjectGlobals pass.
//!
//! Routes every mocking-object access through the per-module runtime object:
//! a namespace import of the runtime module is inserted as the very first
//! statement of the body, and every static property access whose object is
//! the bare identifier `jest` has that object replaced by the qualified
//! `import.meta.jest` access. Accesses already in the qualified form are left
//! unchanged, which makes the access rewrite idempotent.

use vstd::prelude::*;

use crate::ast::{
    view_args, view_expr, view_exprs, Arg, ArgView, Declarator, DeclaratorView, Expr, ExprView,
    ImportSpec,
    Program, ProgramView, Stmt, StmtView,
};
use crate::convert_mocks::view_stmts;

verus! {

broadcast use crate::ast::lemma_view_exprs, crate::ast::lemma_view_args;

/// The qualified mocking-object access `import.meta.jest`.
pub open spec fn spec_qualified_jest() -> ExprView {
    ExprView::Member {
        object: Box::new(
            ExprView::Member {
                object: Box::new(ExprView::Ident { name: "import"@ }),
                property: "meta"@,
            },
        ),
        property: "jest"@,
    }
}

/// The inserted namespace import of the runtime module:
/// `import * as __oxjest__ from "oxjest/runtime";`.
pub open spec fn spec_runtime_import() -> StmtView {
    StmtView::Import {
        source: "oxjest/runtime"@,
        specifiers: seq![crate::ast::ImportSpecView::Namespace { local: "__oxjest__"@ }],
    }
}

/// Whether a member access's object is the bare mocking-object identifier.
pub open spec fn spec_is_bare_jest(e: ExprView) -> bool {
    e matches ExprView::Ident { name } && name == "jest"@
}

/// The access rewrite over one expression: every static property access on
/// the bare identifier `jest` is requalified; everything else is traversed.
pub open spec fn inj_expr(e: ExprView) -> ExprView
    decreases e, 1int,
{
    match e {
        ExprView::Member { object, property } => {
            if spec_is_bare_jest(*object) {
                ExprView::Member { object: Box::new(spec_qualified_jest()), property }
            } else {
                ExprView::Member { object: Box::new(inj_expr(*object)), property }
            }
        },
        ExprView::Call { callee, args } => ExprView::Call {
            callee: Box::new(inj_expr(*callee)),
            args: inj_args(args),
        },
        ExprView::Await { argument } => ExprView::Await { argument: Box::new(inj_expr(*argument)) },
        ExprView::ImportExpr { source } => ExprView::ImportExpr {
            source: Box::new(inj_expr(*source)),
        },
        ExprView::Other { children } => ExprView::Other { children: inj_exprs(children) },
        _ => e,
    }
}

/// The access rewrite over a sequence of expressions.
pub open spec fn inj_exprs(s: Seq<ExprView>) -> Seq<ExprView>
    decreases s, 0int,
{
    if s.len() == 0 {
        Seq::empty()
    } else {
        seq![inj_expr(s[0])] + inj_exprs(s.subrange(1, s.len() as int))
    }
}

/// The access rewrite over one call argument.
pub open spec fn inj_arg(a: ArgView) -> ArgView
    decreases a, 1int,
{
    match a {
        ArgView::Item { expr } => ArgView::Item { expr: inj_expr(expr) },
        ArgView::Spread { expr } => ArgView::Spread { expr: inj_expr(expr) },
    }
}

/// The access rewrite over an argument list.
pub open spec fn inj_args(s: Seq<ArgView>) -> Seq<ArgView>
    decreases s, 0int,
{
    if s.len() == 0 {
        Seq::empty()
    } else {
        seq![inj_arg(s[0])] + inj_args(s.subrange(1, s.len() as int))
    }
}

/// The access rewrite over a declarator list.
pub open spec fn inj_decls(s: Seq<DeclaratorView>) -> Seq<DeclaratorView>
    decreases s,
{
    if s.len() == 0 {
        Seq::empty()
    } else {
        seq![DeclaratorView { name: s[0].name, init: inj_expr(s[0].init) }] + inj_decls(
            s.subrange(1, s.len() as int),
        )
    }
}

/// The access rewrite over one statement.
pub open spec fn inj_stmt(s: StmtView) -> StmtView {
    match s {
        StmtView::Expr { expr } => StmtView::Expr { expr: inj_expr(expr) },
        StmtView::ConstDecl { declarators } => StmtView::ConstDecl {
            declarators: inj_decls(declarators),
        },
        StmtView::Other { exprs } => StmtView::Other { exprs: inj_exprs(exprs) },
        _ => s,
    }
}

/// The access rewrite over the statement list.
pub open spec fn inj_stmts(s: Seq<StmtView>) -> Seq<StmtView>
    decreases s,
{
    if s.len() == 0 {
        Seq::empty()
    } else {
        seq![inj_stmt(s[0])] + inj_stmts(s.subrange(1, s.len() as int))
    }
}

/// The whole pass: the runtime import first, then the body with every
/// mocking-object access requalified.
pub open spec fn spec_inject_globals(p: ProgramView) -> ProgramView {
    ProgramView { body: seq![spec_runtime_import()] + inj_stmts(p.body) }
}

/// Builds the qualified access `import.meta.jest`, carrying the property of
/// the rewritten access over unchanged.
fn make_import_meta_jest(property: String) -> (r: Expr)
    ensures
        r@ == (ExprView::Member {
            object: Box::new(spec_qualified_jest()),
            property: property@,
        }),
{
    let r = Expr::Member {
        object: Box::new(
            Expr::Member {
                object: Box::new(
                    Expr::Member {
                        object: Box::new(Expr::Ident { name: "import".to_owned() }),
                        property: "meta".to_owned(),
                    },
                ),
                property: "jest".to_owned(),
            },
        ),
        property,
    };
    proof {
        reveal_with_fuel(view_expr, 4);
        assert(r@ =~~= (ExprView::Member {
            object: Box::new(spec_qualified_jest()),
            property: property@,
        }));
    }
    r
}

/// Builds the runtime import `import * as __oxjest__ from "oxjest/runtime";`.
fn make_runtime_import_stmt() -> (r: Stmt)
    ensures
        r@ == spec_runtime_import(),
{
    let mut specifiers: Vec<ImportSpec> = Vec::new();
    specifiers.push(ImportSpec::Namespace { local: "__oxjest__".to_owned() });
    let r = Stmt::Import { source: "oxjest/runtime".to_owned(), specifiers };
    proof {
        assert(r@->Import_specifiers =~= spec_runtime_import()->Import_specifiers);
        assert(r@ =~~= spec_runtime_import());
    }
    r
}

/// Rewrites every mocking-object access in one expression.
fn inject_expr(e: &Expr) -> (r: Expr)
    ensures
        r@ == inj_expr(e@),
    decreases *e, 1int,
{
    match e {
        Expr::Ident { name } => Expr::Ident { name: name.clone() },
        Expr::Str { value } => Expr::Str { value: value.clone() },
        Expr::Null => Expr::Null,
        Expr::Member { object, property } => {
            let bare = match &**object {
                Expr::Ident { name } => crate::jest::str_eq(name, "jest"),
                _ => false,
            };
            proof {
                reveal_with_fuel(view_expr, 2);
                assert(bare == spec_is_bare_jest(object@));
            }
            if bare {
                make_import_meta_jest(property.clone())
            } else {
                let o = inject_expr(object);
                Expr::Member { object: Box::new(o), property: property.clone() }
            }
        },
        Expr::Call { callee, args } => {
            let c = inject_expr(callee);
            proof {
                assert(args@.subrange(0, args@.len() as int) =~= args@);
                assert(decreases_to!(*e => args@));
                assert(view_args(args@).subrange(0, args@.len() as int) =~= view_args(args@));
            }
            let a = inject_args_vec(args, 0);
            Expr::Call { callee: Box::new(c), args: a }
        },
        Expr::Await { argument } => {
            let a = inject_expr(argument);
            Expr::Await { argument: Box::new(a) }
        },
        Expr::ImportExpr { source } => {
            let s = inject_expr(source);
            Expr::ImportExpr { source: Box::new(s) }
        },
        Expr::Other { children } => {
            proof {
                assert(children@.subrange(0, children@.len() as int) =~= children@);
                assert(decreases_to!(*e => children@));
                assert(view_exprs(children@).subrange(0, children@.len() as int) =~= view_exprs(
                    children@,
                ));
            }
            let c = inject_exprs_vec(children, 0);
            Expr::Other { children: c }
        },
    }
}

/// Rewrites the elements of `v` from index `i` on.
fn inject_exprs_vec(v: &Vec<Expr>, i: usize) -> (r: Vec<Expr>)
    requires
        i <= v@.len(),
    ensures
        view_exprs(r@) == inj_exprs(view_exprs(v@).subrange(i as int, v@.len() as int)),
    decreases v@.subrange(i as int, v@.len() as int), 0int,
{
    if i == v.len() {
        Vec::new()
    } else {
        proof {
            let s = v@.subrange(i as int, v@.len() as int);
            assert(v@[i as int] == s[0]);
            assert(decreases_to!(s => s[0]));
            assert(s.subrange(1, s.len() as int) =~= v@.subrange(i + 1, v@.len() as int));
            assert(decreases_to!(s => s.subrange(1, s.len() as int)));
        }
        let e = inject_expr(&v[i]);
        let mut rest = inject_exprs_vec(v, i + 1);
        let ghost rest0 = rest@;
        rest.insert(0, e);
        proof {
            let s_all = view_exprs(v@).subrange(i as int, v@.len() as int);
            assert(s_all[0] == view_expr(v@[i as int]));
            assert(s_all.subrange(1, s_all.len() as int) =~= view_exprs(v@).subrange(
                i as int + 1,
                v@.len() as int,
            ));
            assert(view_exprs(rest@) =~= seq![e@] + view_exprs(rest0));
        }
        rest
    }
}

/// Rewrites the arguments of `v` from index `i` on.
fn inject_args_vec(v: &Vec<Arg>, i: usize) -> (r: Vec<Arg>)
    requires
        i <= v@.len(),
    ensures
        view_args(r@) == inj_args(view_args(v@).subrange(i as int, v@.len() as int)),
    decreases v@.subrange(i as int, v@.len() as int), 0int,
{
    if i == v.len() {
        Vec::new()
    } else {
        proof {
            let s = v@.subrange(i as int, v@.len() as int);
            assert(v@[i as int] == s[0]);
            assert(decreases_to!(s => s[0]));
            assert(s.subrange(1, s.len() as int) =~= v@.subrange(i + 1, v@.len() as int));
            assert(decreases_to!(s => s.subrange(1, s.len() as int)));
        }
        let a = match &v[i] {
            Arg::Item { expr } => Arg::Item { expr: inject_expr(expr) },
            Arg::Spread { expr } => Arg::Spread { expr: inject_expr(expr) },
        };
        proof {
            let s_all = view_args(v@).subrange(i as int, v@.len() as int);
            assert(s_all[0] == crate::ast::view_arg(v@[i as int]));
            assert(a@ == inj_arg(s_all[0]));
        }
        let mut rest = inject_args_vec(v, i + 1);
        let ghost rest0 = rest@;
        rest.insert(0, a);
        proof {
            let s_all = view_args(v@).subrange(i as int, v@.len() as int);
            assert(s_all.subrange(1, s_all.len() as int) =~= view_args(v@).subrange(
                i as int + 1,
                v@.len() as int,
            ));
            assert(view_args(rest@) =~= seq![a@] + view_args(rest0));
        }
        rest
    }
}

/// Rewrites the declarators of `v` from index `i` on.
fn inject_decls_vec(v: &Vec<Declarator>, i: usize) -> (r: Vec<Declarator>)
    requires
        i <= v@.len(),
    ensures
        r@.map_values(|d: Declarator| d@) == inj_decls(
            v@.map_values(|d: Declarator| d@).subrange(i as int, v@.len() as int),
        ),
    decreases v@.len() - i,
{
    if i == v.len() {
        Vec::new()
    } else {
        let d = Declarator { name: v[i].name.clone(), init: inject_expr(&v[i].init) };
        let mut rest = inject_decls_vec(v, i + 1);
        let ghost rest0 = rest@;
        rest.insert(0, d);
        proof {
            let s_all = v@.map_values(|x: Declarator| x@).subrange(i as int, v@.len() as int);
            assert(s_all.subrange(1, s_all.len() as int) =~= v@.map_values(
                |x: Declarator| x@,
            ).subrange(i as int + 1, v@.len() as int));
            assert(rest@.map_values(|x: Declarator| x@) =~= seq![d@] + rest0.map_values(
                |x: Declarator| x@,
            ));
        }
        rest
    }
}

/// Rewrites the statements of `v` from index `i` on.
fn inject_stmts_vec(v: &Vec<Stmt>, i: usize) -> (r: Vec<Stmt>)
    requires
        i <= v@.len(),
    ensures
        view_stmts(r@) == inj_stmts(view_stmts(v@).subrange(i as int, v@.len() as int)),
    decreases v@.len() - i,
{
    if i == v.len() {
        Vec::new()
    } else {
        let t = match &v[i] {
            Stmt::Expr { expr } => Stmt::Expr { expr: inject_expr(expr) },
            Stmt::Import { source, specifiers } => Stmt::Import {
                source: source.clone(),
                specifiers: crate::convert_mocks::clone_specifiers(specifiers),
            },
            Stmt::ConstDecl { declarators } => {
                proof {
                    assert(declarators@.map_values(|d: Declarator| d@).subrange(
                        0,
                        declarators@.len() as int,
                    ) =~= declarators@.map_values(|d: Declarator| d@));
                }
                Stmt::ConstDecl { declarators: inject_decls_vec(declarators, 0) }
            },
            Stmt::Other { exprs } => {
                proof {
                    assert(view_exprs(exprs@).subrange(0, exprs@.len() as int) =~= view_exprs(
                        exprs@,
                    ));
                }
                Stmt::Other { exprs: inject_exprs_vec(exprs, 0) }
            },
        };
        proof {
            let s_all = view_stmts(v@).subrange(i as int, v@.len() as int);
            assert(s_all[0] == v@[i as int]@);
            assert(t@ == inj_stmt(s_all[0]));
        }
        let mut rest = inject_stmts_vec(v, i + 1);
        let ghost rest0 = rest@;
        rest.insert(0, t);
        proof {
            let s_all = view_stmts(v@).subrange(i as int, v@.len() as int);
            assert(s_all.subrange(1, s_all.len() as int) =~= view_stmts(v@).subrange(
                i as int + 1,
                v@.len() as int,
            ));
            assert(view_stmts(rest@) =~= seq![t@] + view_stmts(rest0));
        }
        rest
    }
}

/// The InjectGlobals pass: inserts the runtime import and requalifies every
/// mocking-object access.
pub struct InjectGlobals {}

impl InjectGlobals {
    /// Makes the pass.
    pub fn new() -> (r: Self) {
        InjectGlobals {}
    }

    /// Runs the pass over one program.
    pub fn process(&self, p: Program) -> (r: Program)
        ensures
            r@ == spec_inject_globals(p@),
    {
        proof {
            assert(view_stmts(p.body@).subrange(0, p.body@.len() as int) =~= view_stmts(p.body@));
        }
        let mut body = inject_stmts_vec(&p.body, 0);
        let ghost b0 = body@;
        body.insert(0, make_runtime_import_stmt());
        proof {
            assert(view_stmts(body@) =~= seq![spec_runtime_import()] + view_stmts(b0));
        }
        Program { body }
    }
}

} // verus!
