//! Errors the command line reports to its user.
use vstd::prelude::*;

verus! {

/// A user-correctable CLI input error with a stable machine-readable code.
#[derive(Debug)]
pub struct CliValidationError {
    pub code: &'static str,
    pub message: String,
    pub hint: &'static str,
}

impl CliValidationError {
    pub fn new(code: &'static str, message: String, hint: &'static str) -> (e: Self)
        ensures
            e.code == code,
            e.message == message,
            e.hint == hint,
    {
        CliValidationError { code, message, hint }
    }
}

} // verus!
