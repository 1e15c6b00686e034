//! Predicate matchers: stateless tests that classify the mocking object and
//! calls to its methods.
//!
//! The checks key off literal identifier spellings, not resolved bindings;
//! a local binding that happens to share the reserved name is matched too.

use vstd::prelude::*;

use crate::ast::{Expr, ExprView};

verus! {

/// The expression is the two-segment module-metadata access `import.meta`.
pub open spec fn spec_is_import_meta(e: ExprView) -> bool {
    match e {
        ExprView::Member { object, property } => property == "meta"@ && match *object {
            ExprView::Ident { name } => name == "import"@,
            _ => false,
        },
        _ => false,
    }
}

/// The expression is the mocking object: `jest` or `import.meta.jest`.
pub open spec fn spec_is_jest_object(e: ExprView) -> bool {
    match e {
        ExprView::Ident { name } => name == "jest"@,
        ExprView::Member { object, property } => spec_is_import_meta(*object) && property
            == "jest"@,
        _ => false,
    }
}

/// The expression is a call whose callee is `<mocking object>.<method>`.
pub open spec fn spec_is_jest_method_call(e: ExprView, method: Seq<char>) -> bool {
    match e {
        ExprView::Call { callee, .. } => match *callee {
            ExprView::Member { object, property } => spec_is_jest_object(*object) && property
                == method,
            _ => false,
        },
        _ => false,
    }
}

/// The expression is a `jest.mock(...)` call.
pub open spec fn spec_is_jest_mock_call(e: ExprView) -> bool {
    spec_is_jest_method_call(e, "mock"@)
}

/// The expression is a `jest.doMock(...)` call.
pub open spec fn spec_is_jest_do_mock_call(e: ExprView) -> bool {
    spec_is_jest_method_call(e, "doMock"@)
}

/// The expression is a `jest.requireActual(...)` call.
pub open spec fn spec_is_jest_require_actual_call(e: ExprView) -> bool {
    spec_is_jest_method_call(e, "requireActual"@)
}

/// The expression is a `jest.unstable_mockModule(...)` call.
pub open spec fn spec_is_jest_mock_module_call(e: ExprView) -> bool {
    spec_is_jest_method_call(e, "unstable_mockModule"@)
}

/// Compares a name of the tree with a literal.
pub fn str_eq(s: &String, lit: &str) -> (r: bool)
    ensures
        r == (s@ == lit@),
{
    let o = lit.to_owned();
    *s == o
}

/// Checks that the expression is `import.meta`.
pub fn is_import_meta(e: &Expr) -> (r: bool)
    ensures
        r == spec_is_import_meta(e@),
{
    proof {
        reveal_with_fuel(crate::ast::view_expr, 2);
    }
    match e {
        Expr::Member { object, property } => match &**object {
            Expr::Ident { name } => str_eq(name, "import") && str_eq(property, "meta"),
            _ => false,
        },
        _ => false,
    }
}

/// Checks that the expression is `jest` or `import.meta.jest`.
pub fn is_jest_object(e: &Expr) -> (r: bool)
    ensures
        r == spec_is_jest_object(e@),
{
    match e {
        Expr::Ident { name } => str_eq(name, "jest"),
        Expr::Member { object, property } => is_import_meta(object) && str_eq(property, "jest"),
        _ => false,
    }
}

/// Checks that the call expression's callee is `<mocking object>.<method>`.
pub fn is_jest_method_call(e: &Expr, method: &str) -> (r: bool)
    ensures
        r == spec_is_jest_method_call(e@, method@),
{
    proof {
        reveal_with_fuel(crate::ast::view_expr, 2);
    }
    match e {
        Expr::Call { callee, .. } => match &**callee {
            Expr::Member { object, property } => {
                is_jest_object(object) && str_eq(property, method)
            },
            _ => false,
        },
        _ => false,
    }
}

/// Checks that the call expression is `jest.mock(...)`.
pub fn is_jest_mock_call(e: &Expr) -> (r: bool)
    ensures
        r == spec_is_jest_mock_call(e@),
{
    is_jest_method_call(e, "mock")
}

/// Checks that the call expression is `jest.doMock(...)`.
pub fn is_jest_do_mock_call(e: &Expr) -> (r: bool)
    ensures
        r == spec_is_jest_do_mock_call(e@),
{
    is_jest_method_call(e, "doMock")
}

/// Checks that the call expression is `jest.requireActual(...)`.
pub fn is_jest_require_actual_call(e: &Expr) -> (r: bool)
    ensures
        r == spec_is_jest_require_actual_call(e@),
{
    is_jest_method_call(e, "requireActual")
}

/// Checks that the call expression is `jest.unstable_mockModule(...)`.
pub fn is_jest_mock_module_call(e: &Expr) -> (r: bool)
    ensures
        r == spec_is_jest_mock_module_call(e@),
{
    is_jest_method_call(e, "unstable_mockModule")
}

} // verus!
