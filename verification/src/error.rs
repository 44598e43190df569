//! The error type shared by every fallible operation of the crate.

use vstd::prelude::*;

verus! {

/// An enumeration of all possible errors.
///
/// Outside failures (I/O, the compute engine, serialization) are carried as
/// plain messages so that the variants hold nothing a contract cannot speak
/// about.
#[derive(Clone, Debug, PartialEq, Eq)]
pub enum CallmError {
    /// A generic error with a custom message.
    GenericError(String),
    /// A failure in the model loader with a custom message.
    LoaderFail(String),
    /// The model architecture is not supported.
    UnsupportedModel,
    /// An I/O failure, described by a message.
    IOError(String),
    /// A failure of the tensor compute engine, described by a message.
    CandleError(String),
    /// A failure in the chat template with a custom message.
    TemplateError(String),
    /// A failure in the tokenizer with a custom message.
    TokenizerError { msg: String },
    /// A serialization/deserialization failure, described by a message.
    SerdeError(String),
}

impl CallmError {
    /// A human-readable description of the error.
    pub fn message(&self) -> (r: String)
        ensures
            r@ == self.spec_message(),
    {
        match self {
            CallmError::GenericError(m) => String::from_str("Error: ").concat(m.as_str()),
            CallmError::LoaderFail(m) => String::from_str("Loader failure: ").concat(m.as_str()),
            CallmError::UnsupportedModel => String::from_str("Unsupported model"),
            CallmError::IOError(m) => String::from_str("I/O error: ").concat(m.as_str()),
            CallmError::CandleError(m) => String::from_str("Candle error: ").concat(m.as_str()),
            CallmError::TemplateError(m) => String::from_str("Template error: ").concat(
                m.as_str(),
            ),
            CallmError::TokenizerError { msg } => String::from_str("Tokenizer error: ").concat(
                msg.as_str(),
            ),
            CallmError::SerdeError(m) => String::from_str(
                "Serialization/Deserialization error: ",
            ).concat(m.as_str()),
        }
    }

    /// What [`CallmError::message`] returns, as a sequence of characters.
    pub open spec fn spec_message(&self) -> Seq<char> {
        match self {
            CallmError::GenericError(m) => "Error: "@ + m@,
            CallmError::LoaderFail(m) => "Loader failure: "@ + m@,
            CallmError::UnsupportedModel => "Unsupported model"@,
            CallmError::IOError(m) => "I/O error: "@ + m@,
            CallmError::CandleError(m) => "Candle error: "@ + m@,
            CallmError::TemplateError(m) => "Template error: "@ + m@,
            CallmError::TokenizerError { msg } => "Tokenizer error: "@ + msg@,
            CallmError::SerdeError(m) => "Serialization/Deserialization error: "@ + m@,
        }
    }
}

} // verus!
