//! Error taxonomy shared by every operation of the library.

use vstd::prelude::*;

verus! {

/// Uniform error kinds of the service. The payload carries the
/// client-visible message; transport concerns (JSON bodies, HTTP status
/// codes) stay outside the library.
#[derive(Debug, Clone, PartialEq, Eq)]
pub enum AppError {
    BadRequest(String),
    Unauthorized,
    NotFound(String),
    Conflict(String),
    NotImplemented(String),
    Internal(String),
}

impl AppError {
    /// The HTTP status code that a transport layer must map this error to.
    pub fn status_code(&self) -> (r: u16)
        ensures
            self is BadRequest ==> r == 400,
            self is Unauthorized ==> r == 401,
            self is NotFound ==> r == 404,
            self is Conflict ==> r == 409,
            self is NotImplemented ==> r == 501,
            self is Internal ==> r == 500,
    {
        match self {
            AppError::BadRequest(_) => 400,
            AppError::Unauthorized => 401,
            AppError::NotFound(_) => 404,
            AppError::Conflict(_) => 409,
            AppError::NotImplemented(_) => 501,
            AppError::Internal(_) => 500,
        }
    }
}

} // verus!
