//! Gleam code generation for BAML types, and the value conversions of the
//! Gleam language client, with their behaviour stated and proved.

use vstd::prelude::*;

pub mod erlang_term;
pub mod erlang_calls;
pub mod errors;
pub mod functions;
pub mod generated_types;
pub mod gleam_type;
pub mod ir;
pub mod ir_to_gleam;
pub mod json;
pub mod package;
pub mod templates;
pub mod text;
pub mod types;
pub mod value;
pub mod wasm_calls;

verus! {

/// The version of this library.
pub fn get_version() -> (r: &'static str)
    ensures
        r@ == "0.1.0"@,
{
    "0.1.0"
}

} // verus!
