//! Error kinds surfaced by the core.

use vstd::prelude::*;
use vstd::string::StringExecFns;

verus! {

/// Errors the core reports to its callers.
#[derive(Debug)]
pub enum AppError {
    /// A reading failed validation; carries a human-readable reason.
    Validation(String),
    /// The caller failed the boundary-layer authorization check.
    Unauthorized,
    /// Reserved for serialization failures during broadcast.
    Internal,
}

impl Clone for AppError {
    /// An exact copy of the error.
    fn clone(&self) -> (r: Self)
        ensures
            r == *self,
    {
        match self {
            AppError::Validation(m) => AppError::Validation(m.clone()),
            AppError::Unauthorized => AppError::Unauthorized,
            AppError::Internal => AppError::Internal,
        }
    }
}

impl AppError {
    /// The human-readable message of this error.
    pub open spec fn spec_message(self) -> Seq<char> {
        match self {
            AppError::Validation(m) => "validation error: "@ + m@,
            AppError::Unauthorized => "unauthorized"@,
            AppError::Internal => "internal error"@,
        }
    }

    /// Renders the error as the message text the service reports.
    pub fn message(&self) -> (r: String)
        ensures
            r@ == self.spec_message(),
    {
        match self {
            AppError::Validation(m) => {
                let mut s = String::from_str("validation error: ");
                s.append(m.as_str());
                s
            },
            AppError::Unauthorized => String::from_str("unauthorized"),
            AppError::Internal => String::from_str("internal error"),
        }
    }
}

} // verus!
