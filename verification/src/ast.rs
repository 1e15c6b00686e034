//! The syntax-tree model that the rewrite passes work on.
//!
//! A program is the ordered sequence of top-level statements of one module.
//! The model keeps exactly the structure that the passes read and produce;
//! any expression or statement form beyond that is an `Other` node that
//! still carries its sub-expressions, so that traversals reach every
//! expression in the tree.

use vstd::prelude::*;

verus! {

/// An expression of the modelled syntax tree.
#[derive(Debug, PartialEq, Eq)]
pub enum Expr {
    /// A bare identifier.
    Ident { name: String },
    /// A static (non-computed) property access `object.property`.
    Member { object: Box<Expr>, property: String },
    /// A call `callee(args...)`.
    Call { callee: Box<Expr>, args: Vec<Arg> },
    /// A string literal.
    Str { value: String },
    /// An `await` expression.
    Await { argument: Box<Expr> },
    /// A dynamic import `import(source)`.
    ImportExpr { source: Box<Expr> },
    /// Any other expression form, carrying its sub-expressions in order.
    Other { children: Vec<Expr> },
    /// The placeholder left where an expression was moved out.
    Null,
}

/// One argument of a call: either a plain expression or a spread.
#[derive(Debug, PartialEq, Eq)]
pub enum Arg {
    Item { expr: Expr },
    Spread { expr: Expr },
}

/// One specifier of an import declaration, in source order.
#[derive(Debug, PartialEq, Eq)]
pub enum ImportSpec {
    /// `import local from "..."`.
    Default { local: String },
    /// `import { imported as local } from "..."`; unaliased when both match.
    Named { imported: String, local: String },
    /// `import * as local from "..."`.
    Namespace { local: String },
}

/// One declarator of a `const` declaration: `name = init`.
#[derive(Debug, PartialEq, Eq)]
pub struct Declarator {
    pub name: String,
    pub init: Expr,
}

/// A top-level statement.
#[derive(Debug, PartialEq, Eq)]
pub enum Stmt {
    /// An expression statement.
    Expr { expr: Expr },
    /// A static import declaration.
    Import { source: String, specifiers: Vec<ImportSpec> },
    /// A `const` declaration.
    ConstDecl { declarators: Vec<Declarator> },
    /// Any other statement form, carrying its sub-expressions in order.
    Other { exprs: Vec<Expr> },
}

/// The ordered top-level statements of one module.
#[derive(Debug, PartialEq, Eq)]
pub struct Program {
    pub body: Vec<Stmt>,
}

/// The spec-level mirror of [`Expr`].
#[verifier::ext_equal]
pub enum ExprView {
    Ident { name: Seq<char> },
    Member { object: Box<ExprView>, property: Seq<char> },
    Call { callee: Box<ExprView>, args: Seq<ArgView> },
    Str { value: Seq<char> },
    Await { argument: Box<ExprView> },
    ImportExpr { source: Box<ExprView> },
    Other { children: Seq<ExprView> },
    Null,
}

/// The spec-level mirror of [`Arg`].
#[verifier::ext_equal]
pub enum ArgView {
    Item { expr: ExprView },
    Spread { expr: ExprView },
}

/// The spec-level mirror of [`ImportSpec`].
#[verifier::ext_equal]
pub enum ImportSpecView {
    Default { local: Seq<char> },
    Named { imported: Seq<char>, local: Seq<char> },
    Namespace { local: Seq<char> },
}

/// The spec-level mirror of [`Declarator`].
#[verifier::ext_equal]
pub struct DeclaratorView {
    pub name: Seq<char>,
    pub init: ExprView,
}

/// The spec-level mirror of [`Stmt`].
#[verifier::ext_equal]
pub enum StmtView {
    Expr { expr: ExprView },
    Import { source: Seq<char>, specifiers: Seq<ImportSpecView> },
    ConstDecl { declarators: Seq<DeclaratorView> },
    Other { exprs: Seq<ExprView> },
}

/// The spec-level mirror of [`Program`].
#[verifier::ext_equal]
pub struct ProgramView {
    pub body: Seq<StmtView>,
}

pub open spec fn view_expr(e: Expr) -> ExprView
    decreases e,
{
    match e {
        Expr::Ident { name } => ExprView::Ident { name: name@ },
        Expr::Member { object, property } => ExprView::Member {
            object: Box::new(view_expr(*object)),
            property: property@,
        },
        Expr::Call { callee, args } => ExprView::Call {
            callee: Box::new(view_expr(*callee)),
            args: view_args(args@),
        },
        Expr::Str { value } => ExprView::Str { value: value@ },
        Expr::Await { argument } => ExprView::Await { argument: Box::new(view_expr(*argument)) },
        Expr::ImportExpr { source } => ExprView::ImportExpr {
            source: Box::new(view_expr(*source)),
        },
        Expr::Other { children } => ExprView::Other { children: view_exprs(children@) },
        Expr::Null => ExprView::Null,
    }
}

pub open spec fn view_exprs(s: Seq<Expr>) -> Seq<ExprView>
    decreases s,
{
    if s.len() == 0 {
        Seq::empty()
    } else {
        view_exprs(s.subrange(0, s.len() - 1)).push(view_expr(s[s.len() - 1]))
    }
}

pub open spec fn view_args(s: Seq<Arg>) -> Seq<ArgView>
    decreases s,
{
    if s.len() == 0 {
        Seq::empty()
    } else {
        view_args(s.subrange(0, s.len() - 1)).push(view_arg(s[s.len() - 1]))
    }
}

pub open spec fn view_arg(a: Arg) -> ArgView
    decreases a,
{
    match a {
        Arg::Item { expr } => ArgView::Item { expr: view_expr(expr) },
        Arg::Spread { expr } => ArgView::Spread { expr: view_expr(expr) },
    }
}

impl View for Expr {
    type V = ExprView;

    open spec fn view(&self) -> ExprView {
        view_expr(*self)
    }
}

impl View for Arg {
    type V = ArgView;

    open spec fn view(&self) -> ArgView {
        view_arg(*self)
    }
}

impl View for ImportSpec {
    type V = ImportSpecView;

    open spec fn view(&self) -> ImportSpecView {
        match self {
            ImportSpec::Default { local } => ImportSpecView::Default { local: local@ },
            ImportSpec::Named { imported, local } => ImportSpecView::Named {
                imported: imported@,
                local: local@,
            },
            ImportSpec::Namespace { local } => ImportSpecView::Namespace { local: local@ },
        }
    }
}

impl View for Declarator {
    type V = DeclaratorView;

    open spec fn view(&self) -> DeclaratorView {
        DeclaratorView { name: self.name@, init: view_expr(self.init) }
    }
}

impl View for Stmt {
    type V = StmtView;

    open spec fn view(&self) -> StmtView {
        match self {
            Stmt::Expr { expr } => StmtView::Expr { expr: view_expr(*expr) },
            Stmt::Import { source, specifiers } => StmtView::Import {
                source: source@,
                specifiers: specifiers@.map_values(|s: ImportSpec| s@),
            },
            Stmt::ConstDecl { declarators } => StmtView::ConstDecl {
                declarators: declarators@.map_values(|d: Declarator| d@),
            },
            Stmt::Other { exprs } => StmtView::Other { exprs: view_exprs(exprs@) },
        }
    }
}

impl View for Program {
    type V = ProgramView;

    open spec fn view(&self) -> ProgramView {
        ProgramView { body: self.body@.map_values(|s: Stmt| s@) }
    }
}

/// `view_exprs` is the element-wise view of a sequence of expressions.
pub broadcast proof fn lemma_view_exprs(s: Seq<Expr>)
    ensures
        (#[trigger] view_exprs(s)).len() == s.len(),
        forall|i: int| 0 <= i < s.len() ==> view_exprs(s)[i] == view_expr(s[i]),
    decreases s,
{
    if s.len() > 0 {
        lemma_view_exprs(s.subrange(0, s.len() - 1));
    }
}

/// `view_args` is the element-wise view of a sequence of arguments.
pub broadcast proof fn lemma_view_args(s: Seq<Arg>)
    ensures
        (#[trigger] view_args(s)).len() == s.len(),
        forall|i: int| 0 <= i < s.len() ==> view_args(s)[i] == view_arg(s[i]),
    decreases s,
{
    if s.len() > 0 {
        lemma_view_args(s.subrange(0, s.len() - 1));
    }
}

} // verus!
