use vstd::prelude::*;

verus! {

/// What can go wrong in the Gleam client.
#[derive(Debug)]
pub enum BamlError {
    /// The runtime could not be started.
    InitError(String),
    /// A function call failed.
    CallError(String),
    /// A value could not be converted.
    ConversionError(String),
    /// A stream failed.
    StreamError(String),
    /// Anything else.
    Other(String),
}

/// The message of an error: what kind of error it is, then its detail.
pub open spec fn error_text(e: BamlError) -> Seq<char> {
    match e {
        BamlError::InitError(m) => "Runtime initialization error: "@ + m@,
        BamlError::CallError(m) => "Function call error: "@ + m@,
        BamlError::ConversionError(m) => "Type conversion error: "@ + m@,
        BamlError::StreamError(m) => "Streaming error: "@ + m@,
        BamlError::Other(m) => "Error: "@ + m@,
    }
}

impl BamlError {
    /// The message of the error (what it displays as).
    pub fn to_string(&self) -> (r: String)
        ensures
            r@ == error_text(*self),
    {
        let (prefix, msg) = match self {
            BamlError::InitError(m) => ("Runtime initialization error: ", m),
            BamlError::CallError(m) => ("Function call error: ", m),
            BamlError::ConversionError(m) => ("Type conversion error: ", m),
            BamlError::StreamError(m) => ("Streaming error: ", m),
            BamlError::Other(m) => ("Error: ", m),
        };
        let mut s = String::from_str(prefix);
        s.append(msg.as_str());
        s
    }
}

/// The error type of `serde_json`.
#[verifier::external_type_specification]
#[verifier::external_body]
pub struct ExSerdeJsonError(serde_json::Error);

/// The message of an `anyhow::Error`.
///
/// Calls `to_string`, which writes the outermost message of the error;
/// nothing about the text is stated.
#[verifier::external_body]
fn anyhow_message(err: &anyhow::Error) -> String {
    err.to_string()
}

/// The message of a `serde_json::Error`.
///
/// Calls `to_string`, which writes the error's description and where in
/// the input it was found; nothing about the text is stated.
#[verifier::external_body]
fn serde_json_message(err: &serde_json::Error) -> String {
    err.to_string()
}

impl From<anyhow::Error> for BamlError {
    /// An error of the runtime becomes an `Other` error with its message.
    fn from(err: anyhow::Error) -> (r: Self)
        ensures
            r is Other,
    {
        BamlError::Other(anyhow_message(&err))
    }
}

impl vstd::std_specs::convert::FromSpecImpl<anyhow::Error> for BamlError {
    /// The message is not stated, so the conversion is stated by the
    /// `ensures` of `from` alone.
    open spec fn obeys_from_spec() -> bool {
        false
    }

    open spec fn from_spec(err: anyhow::Error) -> BamlError {
        vstd::pervasive::arbitrary()
    }
}

impl From<serde_json::Error> for BamlError {
    /// A JSON error becomes a `ConversionError` with its message.
    fn from(err: serde_json::Error) -> (r: Self)
        ensures
            r is ConversionError,
    {
        BamlError::ConversionError(serde_json_message(&err))
    }
}

impl vstd::std_specs::convert::FromSpecImpl<serde_json::Error> for BamlError {
    /// The message is not stated, so the conversion is stated by the
    /// `ensures` of `from` alone.
    open spec fn obeys_from_spec() -> bool {
        false
    }

    open spec fn from_spec(err: serde_json::Error) -> BamlError {
        vstd::pervasive::arbitrary()
    }
}

} // verus!
