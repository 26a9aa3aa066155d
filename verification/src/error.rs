//! The ways a request can be refused.

use vstd::prelude::*;

verus! {

/// Why a request was refused.  The two validation failures reject the
/// request before the store is touched; a missing identifier refuses a
/// lookup cleanly instead of crashing.
#[derive(Clone, Copy, PartialEq, Eq, Structural, Debug)]
pub enum ApiError {
    /// The request body grew past the size bound before it was complete.
    PayloadTooLarge,
    /// The body was not valid JSON in the shape of a product record.
    MalformedBody,
    /// No stored record carries the requested identifier.
    NotFound,
}

impl ApiError {
    /// The HTTP status code of the refusal.
    pub open spec fn spec_status_code(self) -> u16 {
        match self {
            ApiError::PayloadTooLarge => 400,
            ApiError::MalformedBody => 400,
            ApiError::NotFound => 404,
        }
    }

    /// Both validation failures are client errors (400); a missing
    /// identifier is reported as not found (404).
    pub fn status_code(&self) -> (code: u16)
        ensures
            code == self.spec_status_code(),
    {
        match self {
            ApiError::PayloadTooLarge => 400,
            ApiError::MalformedBody => 400,
            ApiError::NotFound => 404,
        }
    }

    /// A short message for the error response body.
    pub fn message(&self) -> (m: String)
        ensures
            self is PayloadTooLarge ==> m@ == "overflow"@,
            self is MalformedBody ==> m@ == "bad request"@,
            self is NotFound ==> m@ == "not found"@,
    {
        match self {
            ApiError::PayloadTooLarge => String::from_str("overflow"),
            ApiError::MalformedBody => String::from_str("bad request"),
            ApiError::NotFound => String::from_str("not found"),
        }
    }
}

} // verus!
