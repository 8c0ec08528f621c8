//! Interpretation of HTTP status codes: which count as success, and which
//! error each failing status maps to.

use vstd::prelude::*;
use crate::error::ReqError;

verus! {

/// A response counts as success exactly when its status is in the 2xx range.
pub open spec fn spec_is_success(status: u16) -> bool {
    200 <= status < 300
}

pub fn is_success(status: u16) -> (r: bool)
    ensures
        r == spec_is_success(status),
{
    200 <= status && status < 300
}

/// The error a failing status maps to, for every call past the two
/// branch lookups: the named statuses get their own kind, anything else is
/// an unexpected status.
pub open spec fn spec_classify_failure(status: u16) -> ReqError {
    if status == 400 {
        ReqError::BadRequest
    } else if status == 401 {
        ReqError::AuthError
    } else if status == 404 {
        ReqError::NotFound
    } else if status == 415 {
        ReqError::UnsupportedMediaType
    } else if status == 429 {
        ReqError::TooManyRequest
    } else {
        ReqError::UnknownConnectionError
    }
}

pub fn classify_failure(status: u16) -> (r: ReqError)
    ensures
        r == spec_classify_failure(status),
{
    if status == 400 {
        ReqError::BadRequest
    } else if status == 401 {
        ReqError::AuthError
    } else if status == 404 {
        ReqError::NotFound
    } else if status == 415 {
        ReqError::UnsupportedMediaType
    } else if status == 429 {
        ReqError::TooManyRequest
    } else {
        ReqError::UnknownConnectionError
    }
}

/// The error a failing head lookup maps to: the branch being absent is
/// `NotFound`, a rejected token is `AuthError`, anything else is a bad
/// request.
pub open spec fn spec_classify_head_failure(status: u16) -> ReqError {
    if status == 404 {
        ReqError::NotFound
    } else if status == 401 {
        ReqError::AuthError
    } else {
        ReqError::BadRequest
    }
}

pub fn classify_head_failure(status: u16) -> (r: ReqError)
    ensures
        r == spec_classify_head_failure(status),
{
    if status == 404 {
        ReqError::NotFound
    } else if status == 401 {
        ReqError::AuthError
    } else {
        ReqError::BadRequest
    }
}

} // verus!
