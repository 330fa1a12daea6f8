//! Failures that the chat core reports to its callers.

use vstd::prelude::*;

verus! {

/// Why a request or a connection was turned away.
#[derive(Clone, Copy, Debug, PartialEq, Eq, Structural)]
pub enum ApiError {
    /// The request itself is malformed.
    BadRequest,
    /// The credential is missing, malformed or expired.
    Unauthorized,
    /// The caller is known but not entitled to the operation.
    Forbidden,
    /// The room, session or account referred to does not exist.
    NotFound,
    /// The persistence layer or another collaborator failed.
    Internal,
}

impl ApiError {
    /// The HTTP status that stands for this failure.
    pub open spec fn spec_status_code(self) -> u16 {
        match self {
            ApiError::BadRequest => 400,
            ApiError::Unauthorized => 401,
            ApiError::Forbidden => 403,
            ApiError::NotFound => 404,
            ApiError::Internal => 500,
        }
    }

    /// The HTTP status that stands for this failure.
    pub fn status_code(&self) -> (code: u16)
        ensures
            code == self.spec_status_code(),
    {
        match self {
            ApiError::BadRequest => 400,
            ApiError::Unauthorized => 401,
            ApiError::Forbidden => 403,
            ApiError::NotFound => 404,
            ApiError::Internal => 500,
        }
    }
}

} // verus!
