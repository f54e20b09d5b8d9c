//! The response envelope every operation returns, and its error taxonomy.
use vstd::prelude::*;

verus! {

pub const STATUS_OK: u16 = 200;

pub const STATUS_CREATED: u16 = 201;

pub const STATUS_UNAUTHORIZED: u16 = 401;

pub const STATUS_NOT_FOUND: u16 = 404;

pub const STATUS_UNPROCESSABLE_ENTITY: u16 = 422;

pub const STATUS_INTERNAL_SERVER_ERROR: u16 = 500;

/// The `{message}` object carried by every error response.
pub struct GenericResponse {
    pub message: String,
}

/// A successful outcome: an HTTP-style status code and a body.
pub struct SuccessResponse<T>(pub (u16, T));

/// A failed outcome: an HTTP-style status code and a message object.
pub struct ErrorResponse(pub (u16, GenericResponse));

/// Exactly one of a success or an error per operation.
pub type Response<T> = Result<SuccessResponse<T>, ErrorResponse>;

impl<T> SuccessResponse<T> {
    pub open spec fn status(&self) -> u16 {
        self.0.0
    }
}

impl ErrorResponse {
    pub open spec fn status(&self) -> u16 {
        self.0.0
    }

    pub open spec fn message(&self) -> Seq<char> {
        self.0.1.message@
    }

    /// An error with the given status and message.
    pub fn new(status: u16, message: String) -> (r: ErrorResponse)
        ensures
            r.status() == status,
            r.message() == message@,
    {
        ErrorResponse((status, GenericResponse { message }))
    }

    /// The generic conversion of an uncategorized failure (a persistence
    /// failure, say): an internal error that carries the failure's own
    /// description.
    pub fn from(description: String) -> (r: ErrorResponse)
        ensures
            r.status() == STATUS_INTERNAL_SERVER_ERROR,
            r.message() == description@,
    {
        ErrorResponse::new(STATUS_INTERNAL_SERVER_ERROR, description)
    }
}

/// Relies on `ToString::to_string` through the error's `Display` impl: the
/// failure's human-readable description.
#[verifier::external_body]
pub(crate) fn error_text<E: std::fmt::Display>(err: &E) -> (r: String) {
    err.to_string()
}

} // verus!
