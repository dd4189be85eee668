use vstd::prelude::*;

use crate::package::CurrentRenderPackage;

verus! {

/// Renders the header of the generated client module.
pub fn render_client(_pkg: &CurrentRenderPackage) -> (r: Result<String, anyhow::Error>)
    ensures
        r matches Ok(text) && text@ == "//// Generated BAML client\n"@,
{
    Ok(String::from_str("//// Generated BAML client\n"))
}

/// Renders the header of the generated runtime module.
pub fn render_runtime(_pkg: &CurrentRenderPackage) -> (r: Result<String, anyhow::Error>)
    ensures
        r matches Ok(text) && text@ == "//// Generated BAML runtime\n"@,
{
    Ok(String::from_str("//// Generated BAML runtime\n"))
}

/// Renders the header of the generated foreign-function bindings module.
pub fn render_ffi(_pkg: &CurrentRenderPackage) -> (r: Result<String, anyhow::Error>)
    ensures
        r matches Ok(text) && text@ == "//// Generated BAML FFI bindings\n"@,
{
    Ok(String::from_str("//// Generated BAML FFI bindings\n"))
}

} // verus!
