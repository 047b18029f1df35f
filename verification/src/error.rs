//! What a handler answers when it does not succeed.

use vstd::prelude::*;

verus! {

/// The four ways in which a request fails.
#[derive(Clone, Copy, Debug, PartialEq, Eq, Structural)]
pub enum ErrorKind {
    BadRequest,
    NotFound,
    Conflict,
    InternalServerError,
}

/// A failed request: what went wrong, and a message for the reader.
#[derive(Debug)]
pub enum ApiError {
    BadRequest(String),
    NotFound(String),
    Conflict(String),
    InternalServerError(String),
}

/// The body of an error response.
#[derive(Debug)]
pub struct ErrorResponse {
    pub error: String,
    pub message: String,
}

/// The status with which a failure of this kind is answered.
pub open spec fn status_of(kind: ErrorKind) -> u16 {
    match kind {
        ErrorKind::BadRequest => 400,
        ErrorKind::NotFound => 404,
        ErrorKind::Conflict => 409,
        ErrorKind::InternalServerError => 500,
    }
}

/// The machine code that names a failure of this kind.
pub open spec fn code_of(kind: ErrorKind) -> Seq<char> {
    match kind {
        ErrorKind::BadRequest => "VALIDATION_ERROR"@,
        ErrorKind::NotFound => "NOT_FOUND"@,
        ErrorKind::Conflict => "CONFLICT"@,
        ErrorKind::InternalServerError => "INTERNAL_ERROR"@,
    }
}

impl View for ApiError {
    type V = (ErrorKind, Seq<char>);

    open spec fn view(&self) -> (ErrorKind, Seq<char>) {
        match self {
            ApiError::BadRequest(m) => (ErrorKind::BadRequest, m@),
            ApiError::NotFound(m) => (ErrorKind::NotFound, m@),
            ApiError::Conflict(m) => (ErrorKind::Conflict, m@),
            ApiError::InternalServerError(m) => (ErrorKind::InternalServerError, m@),
        }
    }
}

impl View for ErrorResponse {
    type V = (Seq<char>, Seq<char>);

    open spec fn view(&self) -> (Seq<char>, Seq<char>) {
        (self.error@, self.message@)
    }
}

impl ErrorResponse {
    /// An error body with the given code and message.
    pub fn new(error: String, message: String) -> (body: ErrorResponse)
        ensures
            body@ == (error@, message@),
    {
        ErrorResponse { error, message }
    }
}

impl ApiError {
    /// The kind of the failure.
    pub fn kind(&self) -> (kind: ErrorKind)
        ensures
            kind == self@.0,
    {
        match self {
            ApiError::BadRequest(_) => ErrorKind::BadRequest,
            ApiError::NotFound(_) => ErrorKind::NotFound,
            ApiError::Conflict(_) => ErrorKind::Conflict,
            ApiError::InternalServerError(_) => ErrorKind::InternalServerError,
        }
    }

    /// The status and the body with which the failure is answered.
    pub fn into_response(self) -> (response: (u16, ErrorResponse))
        ensures
            response.0 == status_of(self@.0),
            response.1@ == (code_of(self@.0), self@.1),
    {
        let (status, error_code, message): (u16, &str, String) = match self {
            ApiError::BadRequest(msg) => (400, "VALIDATION_ERROR", msg),
            ApiError::NotFound(msg) => (404, "NOT_FOUND", msg),
            ApiError::Conflict(msg) => (409, "CONFLICT", msg),
            ApiError::InternalServerError(msg) => (500, "INTERNAL_ERROR", msg),
        };
        let body = ErrorResponse { error: String::from_str(error_code), message };
        (status, body)
    }
}

} // verus!
