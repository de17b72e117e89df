//! The ways in which a validation can fail.

use vstd::prelude::*;

verus! {

/// Why no verdict was reached.
#[derive(Clone, Copy, Debug, PartialEq, Eq, Structural)]
pub enum ValidationError {
    /// The language tag names no language for which a prompt exists.
    UnsupportedLanguage,
    /// No response arrived, or one arrived with a status that is no success.
    Transport,
    /// The request could not be encoded or the response body could not be
    /// decoded.
    Serialization,
}

/// The wording of each error.
pub open spec fn error_message(error: ValidationError) -> Seq<char> {
    match error {
        ValidationError::UnsupportedLanguage => "Unsupported language"@,
        ValidationError::Transport => "Failed to get a valid response from OpenAI"@,
        ValidationError::Serialization => "Failed to encode the request or decode the response"@,
    }
}

impl ValidationError {
    /// The error in words.
    pub fn message(&self) -> (text: &'static str)
        ensures
            text@ == error_message(*self),
    {
        match self {
            ValidationError::UnsupportedLanguage => "Unsupported language",
            ValidationError::Transport => "Failed to get a valid response from OpenAI",
            ValidationError::Serialization => "Failed to encode the request or decode the response",
        }
    }
}

} // verus!
