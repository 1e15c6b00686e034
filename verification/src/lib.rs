//! Rewrites synchronous test-mocking idioms — module mocking, "require
//! actual module", and the ambient mocking object — into forms valid under
//! asynchronous module semantics, where static imports are hoisted and
//! evaluated before any module body code runs.
//!
//! The library is the multi-pass rewriting pipeline over its own model of
//! the syntax tree: [`convert_mocks`], [`inject_globals`] and
//! [`import_actual`], composed in fixed order by [`transformer`]. Parsing,
//! scope resolution and printing are external collaborators and stay outside
//! the library; [`transform`] assembles the printed output.

pub mod ast;
pub mod convert_mocks;
pub mod import_actual;
pub mod inject_globals;
pub mod jest;
pub mod laws;
pub mod names;
pub mod transform;
pub mod transformer;
