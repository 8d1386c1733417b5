//! The HTTP status codes the Send API documents.

use vstd::prelude::*;

verus! {

/// An HTTP status code of the Send API, with the statuses its
/// documentation enumerates as named variants and every other code kept
/// verbatim.
#[derive(Debug, Clone, Copy, PartialEq, Eq, Structural)]
pub enum StatusCode {
    /// All went well.
    Success,
    /// The request was successfully executed.
    Created,
    /// No content found or expected to return.
    NoContent,
    /// The request did not affect any record.
    NotModified,
    /// One or more parameters are missing or misspelled.
    BadRequest,
    /// An incorrect API key / secret key pair was specified.
    Unauthorized,
    /// Access to the resource is not authorized.
    Forbidden,
    /// The resource with the specified id does not exist.
    NotFound,
    /// The method requested on the resource does not exist.
    MethodNotAllowed,
    /// The maximum number of calls allowed per minute was reached.
    TooManyRequests,
    /// Something went wrong on the server's side.
    InternalServerError,
    /// Any status code the documentation does not name.
    Unknown(u16),
}

/// The status a numeric HTTP code maps to.
pub open spec fn status_of(code: u16) -> StatusCode {
    if code == 200 {
        StatusCode::Success
    } else if code == 201 {
        StatusCode::Created
    } else if code == 204 {
        StatusCode::NoContent
    } else if code == 304 {
        StatusCode::NotModified
    } else if code == 400 {
        StatusCode::BadRequest
    } else if code == 401 {
        StatusCode::Unauthorized
    } else if code == 403 {
        StatusCode::Forbidden
    } else if code == 404 {
        StatusCode::NotFound
    } else if code == 405 {
        StatusCode::MethodNotAllowed
    } else if code == 429 {
        StatusCode::TooManyRequests
    } else if code == 500 {
        StatusCode::InternalServerError
    } else {
        StatusCode::Unknown(code)
    }
}

impl StatusCode {
    /// Classifies a numeric HTTP status code.
    pub fn from_u16(code: u16) -> (r: Self)
        ensures
            r == status_of(code),
    {
        if code == 200 {
            StatusCode::Success
        } else if code == 201 {
            StatusCode::Created
        } else if code == 204 {
            StatusCode::NoContent
        } else if code == 304 {
            StatusCode::NotModified
        } else if code == 400 {
            StatusCode::BadRequest
        } else if code == 401 {
            StatusCode::Unauthorized
        } else if code == 403 {
            StatusCode::Forbidden
        } else if code == 404 {
            StatusCode::NotFound
        } else if code == 405 {
            StatusCode::MethodNotAllowed
        } else if code == 429 {
            StatusCode::TooManyRequests
        } else if code == 500 {
            StatusCode::InternalServerError
        } else {
            StatusCode::Unknown(code)
        }
    }
}

} // verus!
