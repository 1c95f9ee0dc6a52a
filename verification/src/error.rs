//! The ways a request can fail, and what the caller is told.

use vstd::prelude::*;

verus! {

/// Why a request was turned down.
#[derive(Clone, Copy, Debug, PartialEq, Eq, Structural)]
pub enum ErrorKind {
    /// No token, a token that does not verify, or wrong credentials.
    Unauthorized,
    /// The caller is known but may not do this.
    Forbidden,
    /// What was asked for does not exist.
    NotFound,
    /// The request itself is not acceptable.
    BadRequest,
    /// The request collides with what is stored.
    Conflict,
    /// Something failed that the caller cannot mend.
    Internal,
}

impl ErrorKind {
    /// The HTTP status that reports this kind of failure.
    pub open spec fn code(self) -> int {
        match self {
            ErrorKind::Unauthorized => 401,
            ErrorKind::Forbidden => 403,
            ErrorKind::NotFound => 404,
            ErrorKind::BadRequest => 400,
            ErrorKind::Conflict => 409,
            ErrorKind::Internal => 500,
        }
    }

    /// The HTTP status that reports this kind of failure.
    pub fn status_code(self) -> (code: u16)
        ensures
            code == self.code(),
    {
        match self {
            ErrorKind::Unauthorized => 401,
            ErrorKind::Forbidden => 403,
            ErrorKind::NotFound => 404,
            ErrorKind::BadRequest => 400,
            ErrorKind::Conflict => 409,
            ErrorKind::Internal => 500,
        }
    }
}

/// The body of a failed response.
#[derive(Clone, Debug, PartialEq, Eq)]
pub struct ErrorResponse {
    pub error: String,
}

/// A failed request: its kind and the body sent back.
#[derive(Clone, Debug, PartialEq, Eq)]
pub struct ApiError {
    pub kind: ErrorKind,
    pub response: ErrorResponse,
}

impl ApiError {
    /// Whether this failure is of `kind` and carries exactly `message`.
    pub open spec fn says(self, kind: ErrorKind, message: Seq<char>) -> bool {
        self.kind == kind && self.response.error@ == message
    }

    /// A failure of `kind` that tells the caller `message`.
    pub fn new(kind: ErrorKind, message: String) -> (e: ApiError)
        ensures
            e.says(kind, message@),
    {
        ApiError { kind, response: ErrorResponse { error: message } }
    }

    /// A failure of `kind` with a fixed message.
    pub fn with_text(kind: ErrorKind, message: &str) -> (e: ApiError)
        ensures
            e.says(kind, message@),
    {
        ApiError { kind, response: ErrorResponse { error: message.to_owned() } }
    }

    /// The HTTP status of the failed response.
    pub fn status_code(&self) -> (code: u16)
        ensures
            code == self.kind.code(),
    {
        self.kind.status_code()
    }
}

} // verus!
