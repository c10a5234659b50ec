//! The error a request handler answers with.

use vstd::prelude::*;

verus! {

/// HTTP-level class of an error.
#[derive(Debug, Clone, Copy, PartialEq, Eq, Structural)]
pub enum ErrorKind {
    BadRequest,
    Unauthorized,
    Forbidden,
    NotFound,
    Conflict,
    Internal,
    ServiceUnavailable,
    NotImplemented,
}

/// An error with its class and the message shown to the caller.
#[derive(Debug)]
pub struct ApiError {
    pub kind: ErrorKind,
    pub message: String,
}

/// `e` is an error of class `kind` whose message reads `msg`.
pub open spec fn is_error(e: ApiError, kind: ErrorKind, msg: Seq<char>) -> bool {
    e.kind == kind && e.message@ == msg
}

impl ApiError {
    pub fn new(kind: ErrorKind, message: String) -> (e: ApiError)
        ensures
            is_error(e, kind, message@),
    {
        ApiError { kind, message }
    }

    pub fn from_str(kind: ErrorKind, message: &str) -> (e: ApiError)
        ensures
            is_error(e, kind, message@),
    {
        ApiError { kind, message: String::from_str(message) }
    }
}

} // verus!
