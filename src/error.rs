//! The ways an invocation of the copy command can fail.
use vstd::prelude::*;

verus! {

/// Why the command failed. Each variant carries the description of the
/// underlying cause.
#[derive(Debug, PartialEq, Eq)]
pub enum CopyError {
    /// The pipeline did not yield a value.
    InputExtraction(String),
    /// The value could not be turned into a JSON value.
    Conversion(String),
    /// The JSON value could not be rendered as text.
    Serialization(String),
    /// The clipboard could not be written.
    Clipboard(String),
}

/// The text shown to the user for an error.
pub open spec fn message_spec(e: CopyError) -> Seq<char> {
    match e {
        CopyError::InputExtraction(cause) => cause@,
        CopyError::Conversion(cause) => "JSON Conversion Error: "@ + cause@,
        CopyError::Serialization(cause) => "JSON Serialization Error: "@ + cause@,
        CopyError::Clipboard(cause) => cause@,
    }
}

impl CopyError {
    /// The text shown to the user: the cause, with the failing stage named
    /// for the two JSON stages.
    pub fn message(&self) -> (r: String)
        ensures
            r@ == message_spec(*self),
    {
        match self {
            CopyError::InputExtraction(cause) => cause.clone(),
            CopyError::Conversion(cause) => {
                let mut text = String::from_str("JSON Conversion Error: ");
                text.append(cause.as_str());
                text
            },
            CopyError::Serialization(cause) => {
                let mut text = String::from_str("JSON Serialization Error: ");
                text.append(cause.as_str());
                text
            },
            CopyError::Clipboard(cause) => cause.clone(),
        }
    }
}

} // verus!
