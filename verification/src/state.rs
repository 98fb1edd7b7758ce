//! Errors of the application state.

use vstd::prelude::*;
use vstd::string::StringExecFns;

verus! {

/// Why the application state could not be had.
#[derive(Debug)]
pub enum StateError {
    InvalidState(String),
    MissingState,
    InitState,
}

/// The message that stands for an error, as plain text.
pub open spec fn state_message(e: StateError) -> Seq<char> {
    match e {
        StateError::InvalidState(detail) => "Invalid state: "@ + detail@,
        StateError::MissingState => "Missing state"@,
        StateError::InitState => "Error initializing state"@,
    }
}

impl StateError {
    /// The message shown for this error.
    pub fn message(&self) -> (text: String)
        ensures
            text@ == state_message(*self),
    {
        match self {
            StateError::InvalidState(detail) => {
                String::from_str("Invalid state: ").concat(detail.as_str())
            },
            StateError::MissingState => String::from_str("Missing state"),
            StateError::InitState => String::from_str("Error initializing state"),
        }
    }
}

} // verus!
