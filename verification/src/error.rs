//! The typed errors a send can surface.

use vstd::prelude::*;

use crate::status::StatusCode;

verus! {

/// An error answer of the remote API: the HTTP status it chose and the raw
/// body text it sent, passed through verbatim.
#[derive(Debug, PartialEq, Eq)]
pub struct Error {
    pub status_code: StatusCode,
    pub message: String,
}

impl Error {
    /// Creates an `Error` from the status and raw body text of an API
    /// response.
    pub fn from_api_response(status_code: StatusCode, message: String) -> (e: Self)
        ensures
            e.status_code == status_code,
            e.message == message,
    {
        Self { status_code, message }
    }
}

/// Everything that can go wrong around one send call.
#[derive(Debug, PartialEq, Eq)]
pub enum ClientError {
    /// An empty public key was handed to the client at construction.
    MissingPublicKey,
    /// An empty private key was handed to the client at construction.
    MissingPrivateKey,
    /// The custom base URL is not a well-formed absolute URL.
    InvalidBaseUrl(String),
    /// The request never got an HTTP answer; carries the target URL and
    /// the transport's description of the cause.
    ServerCommunicationError { url: String, cause: String },
    /// The remote API answered with an error status; carries its status
    /// and raw body.
    ApiError(Error),
    /// The remote API reported success, but its body does not parse as the
    /// documented success shape; carries the body verbatim.
    MalformedResponse { body: String },
}

} // verus!
