//! The API's error kinds and the HTTP answer each one gives.
use vstd::prelude::*;

use crate::text::owned;

verus! {

/// Unified API error type. An internal error carries the description of
/// what failed, which is logged and never shown to the client.
#[derive(Debug, Clone)]
pub enum ApiError {
    NotFound(String),
    BadRequest(String),
    Unauthorized(String),
    Forbidden(String),
    Internal(String),
}

/// The status code and client-facing message of an error.
pub open spec fn response_of(e: ApiError) -> (u16, Seq<char>) {
    match e {
        ApiError::NotFound(m) => (404, m@),
        ApiError::BadRequest(m) => (400, m@),
        ApiError::Unauthorized(m) => (401, m@),
        ApiError::Forbidden(m) => (403, m@),
        ApiError::Internal(_) => (500, "An internal server error occurred"@),
    }
}

/// An error whose kind and message are given as plain values.
pub open spec fn is_bad_request(e: ApiError, m: Seq<char>) -> bool {
    e matches ApiError::BadRequest(x) && x@ == m
}

impl ApiError {
    /// The HTTP status code and the message the client sees.
    pub fn response_parts(&self) -> (r: (u16, String))
        ensures
            (r.0, r.1@) == response_of(*self),
    {
        match self {
            ApiError::NotFound(m) => (404, m.clone()),
            ApiError::BadRequest(m) => (400, m.clone()),
            ApiError::Unauthorized(m) => (401, m.clone()),
            ApiError::Forbidden(m) => (403, m.clone()),
            ApiError::Internal(_) => (500, String::from_str("An internal server error occurred")),
        }
    }

    pub fn bad_request(m: &str) -> (r: ApiError)
        ensures
            is_bad_request(r, m@),
    {
        ApiError::BadRequest(owned(m))
    }
}

} // verus!
