//! The library's failure value: every fault is carried as readable text,
//! because the intended reader of a failure is the model on its next turn.

use vstd::prelude::*;

verus! {

/// A recoverable fault, described by a message meant for model feedback.
pub struct OllamaError {
    pub message: String,
}

impl OllamaError {
    /// Wraps a feedback message as an error value.
    pub fn new(message: String) -> (e: OllamaError)
        ensures
            e.message@ == message@,
    {
        OllamaError { message }
    }
}

} // verus!
