use vstd::prelude::*;

use std::sync::Arc;

use crate::ir::IntermediateRepr;

verus! {

/// The package being rendered and the Gleam module whose code is being
/// written at the moment; types of that module are written unqualified.
pub struct CurrentRenderPackage {
    pub name: String,
    pub ir: Arc<IntermediateRepr>,
    pub current_module: String,
}

impl CurrentRenderPackage {
    pub fn new(name: &str, ir: Arc<IntermediateRepr>) -> (r: Self)
        ensures
            r.name@ == name@,
            r.ir == ir,
            r.current_module@ == "baml_client"@,
    {
        CurrentRenderPackage { name: String::from_str(name), ir, current_module: String::from_str("baml_client") }
    }

    pub fn set(&mut self, module: &str)
        ensures
            final(self).current_module@ == module@,
            final(self).name == old(self).name,
            final(self).ir == old(self).ir,
    {
        self.current_module = String::from_str(module);
    }
}

} // verus!
