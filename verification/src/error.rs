//! The single error kind of the library: an infrastructure operation failure
//! carrying the free-text diagnostic of the failed backend call.

use vstd::prelude::*;

verus! {

/// Failure of an infrastructure operation. Failures are never swallowed:
/// every operation either succeeds or surfaces one of these to the caller.
#[derive(Debug)]
pub enum FleetError {
    InternalServerError { message: String },
}

impl FleetError {
    /// The human-readable diagnostic carried by the error.
    pub fn message(&self) -> (r: &String)
        ensures
            self matches FleetError::InternalServerError { message } && r == message,
    {
        match self {
            FleetError::InternalServerError { message } => message,
        }
    }
}

impl Clone for FleetError {
    /// A clone carries the same message.
    fn clone(&self) -> (r: Self)
        ensures
            r == *self,
    {
        match self {
            FleetError::InternalServerError { message } => {
                FleetError::InternalServerError { message: message.clone() }
            },
        }
    }
}

} // verus!
