//! The pipeline orchestrator: the facade of all transforms combined into one.
//!
//! The order is load-bearing: mock calls are normalized and hoisted before
//! the mocking-object-access rewrite runs, and before the "require actual"
//! hoisting observes final call-site positions. Each pass runs to completion
//! before the next starts, over one tree.

use vstd::prelude::*;

use crate::ast::{Program, ProgramView};
use crate::convert_mocks::{spec_convert_mocks, ConvertMocks};
use crate::import_actual::{spec_import_actual, ImportActual};
use crate::inject_globals::{spec_inject_globals, InjectGlobals};

verus! {

/// The whole rewrite: ConvertMocks, then InjectGlobals, then ImportActual.
pub open spec fn spec_transform(p: ProgramView) -> ProgramView {
    spec_import_actual(spec_inject_globals(spec_convert_mocks(p)))
}

/// The facade of all transforms combined into one.
pub struct Transformer {
    convert_mocks: ConvertMocks,
    import_actual: ImportActual,
    inject_globals: InjectGlobals,
}

impl Transformer {
    /// Makes the pipeline.
    pub fn new() -> (r: Self) {
        Transformer {
            convert_mocks: ConvertMocks::new(),
            import_actual: ImportActual::new(),
            inject_globals: InjectGlobals::new(),
        }
    }

    /// Runs the three passes in their fixed order over one program.
    pub fn process(&self, p: Program) -> (r: Program)
        ensures
            r@ == spec_transform(p@),
    {
        let p = self.convert_mocks.process(p);
        let p = self.inject_globals.process(p);
        self.import_actual.process(p)
    }
}

} // verus!
