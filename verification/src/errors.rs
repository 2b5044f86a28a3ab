//! The error a request handler answers with when it refuses a request.

use vstd::prelude::*;

verus! {

/// A refused request, with the reason that is reported to the event system.
#[derive(Debug)]
pub enum HandlerError {
    /// The handler refused to execute the request, for the given reason.
    HandlerExecution(String),
}

impl HandlerError {
    /// The reason carried by the error.
    pub open spec fn reason(self) -> Seq<char> {
        match self {
            HandlerError::HandlerExecution(s) => s@,
        }
    }
}

/// The reason given for a request from a connection that is not authenticated.
pub open spec fn unauthenticated_reason() -> Seq<char> {
    "Unauthenticated request"@
}

/// The refusal of a request from a connection that is not authenticated.
pub fn unauthenticated_error() -> (e: HandlerError)
    ensures
        e.reason() == unauthenticated_reason(),
{
    HandlerError::HandlerExecution(String::from_str("Unauthenticated request"))
}

/// The handler outcome described by an optional refusal reason:
/// `Ok(())` where there is none, the refusal with that reason otherwise.
pub open spec fn outcome_matches(r: Result<(), HandlerError>, refusal: Option<Seq<char>>) -> bool {
    match refusal {
        None => r is Ok,
        Some(reason) => r matches Err(e) && e.reason() == reason,
    }
}

} // verus!
