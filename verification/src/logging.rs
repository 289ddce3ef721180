//! Failures of setting up the server's log output.
use vstd::prelude::*;

verus! {

/// The log filter could not be read.
#[derive(Debug, Clone, PartialEq, Eq)]
pub enum LoggingError {
    InvalidFilter(String),
}

impl LoggingError {
    /// The human-readable text of the error.
    pub fn to_string(&self) -> (r: String)
        ensures
            self matches LoggingError::InvalidFilter(reason) && r@ == "invalid log filter: "@
                + reason@,
    {
        match self {
            LoggingError::InvalidFilter(reason) => {
                let mut s = String::from_str("invalid log filter: ");
                s.append(reason.as_str());
                s
            },
        }
    }
}

} // verus!
