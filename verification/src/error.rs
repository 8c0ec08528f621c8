//! The error kinds a workflow run can end with.

use vstd::prelude::*;

verus! {

/// Everything that can go wrong while talking to the API. `ConnectionError`
/// stands for a transport failure or an unreadable response body; the other
/// variants classify unexpected HTTP statuses.
#[derive(Clone, Copy, Debug, PartialEq, Eq, Structural)]
pub enum ReqError {
    BadRequest,
    AuthError,
    TooManyRequest,
    UnsupportedMediaType,
    ConnectionError,
    UnknownConnectionError,
    AuthenticationTimeoutFailure,
    NotFound,
}

impl ReqError {
    /// A human-readable description of the error.
    pub fn message(&self) -> (r: &'static str)
        ensures
            r@ == self.spec_message(),
    {
        match self {
            ReqError::BadRequest => "error in communicating with the API",
            ReqError::AuthError => "error in authentication with the API",
            ReqError::TooManyRequest => "too many requests sent over the quote",
            ReqError::UnsupportedMediaType => "media type not supported for query",
            ReqError::ConnectionError => "error communicating with the api",
            ReqError::UnknownConnectionError => "unknown error communicating with the api",
            ReqError::AuthenticationTimeoutFailure => "failed to renew auth token",
            ReqError::NotFound => "not found",
        }
    }

    pub open spec fn spec_message(&self) -> Seq<char> {
        match self {
            ReqError::BadRequest => "error in communicating with the API"@,
            ReqError::AuthError => "error in authentication with the API"@,
            ReqError::TooManyRequest => "too many requests sent over the quote"@,
            ReqError::UnsupportedMediaType => "media type not supported for query"@,
            ReqError::ConnectionError => "error communicating with the api"@,
            ReqError::UnknownConnectionError => "unknown error communicating with the api"@,
            ReqError::AuthenticationTimeoutFailure => "failed to renew auth token"@,
            ReqError::NotFound => "not found"@,
        }
    }
}

} // verus!
