//! The Send API client: credentials, the request it prepares, and the
//! reading of the answer.
//!
//! The client does not carry an HTTP transport of its own: it prepares the
//! one POST request a send needs, and classifies whatever status and body
//! came back. The caller performs the exchange with the transport of its
//! choice and surfaces transport failures as
//! [`ClientError::ServerCommunicationError`].

use vstd::prelude::*;
use vstd::string::StringExecFns;

use crate::error::ClientError;
use crate::error::Error;
use crate::json::render;
use crate::payload::Payload;
use crate::response::Response;
use crate::response::json_parse;
use crate::response::response_of;
use crate::response::response_view;
use crate::status::StatusCode;
use crate::status::status_of;
use crate::version::SendAPIVersion;
use crate::version::api_url_of;

verus! {

/// The standard base64 encoding of the UTF-8 bytes of a text, as the
/// base64 crate computes it: it depends on the characters alone.
pub uninterp spec fn base64_of(s: Seq<char>) -> Seq<char>;

/// Relies on http_auth_basic's `Credentials::new` and
/// `Credentials::as_http_header`: the header value is `Basic ` followed by
/// the standard base64 encoding of `user_id:password`.
#[verifier::external_body]
fn basic_auth_header(public_key: &str, private_key: &str) -> (r: String)
    ensures
        r@ == "Basic "@ + base64_of(public_key@ + ":"@ + private_key@),
{
    http_auth_basic::Credentials::new(public_key, private_key).as_http_header()
}

/// Whether the url crate accepts a text as a well-formed absolute URL.
pub uninterp spec fn url_accepts(s: Seq<char>) -> bool;

/// Relies on `url::Url::parse`: whether it accepts the text as a
/// well-formed absolute URL.
#[verifier::external_body]
fn is_valid_url(s: &str) -> (r: bool)
    ensures
        r == url_accepts(s@),
{
    url::Url::parse(s).is_ok()
}

/// An authenticated Send API client: the key pair, the Basic-Auth header
/// value built from it, and the base URL requests go to.
#[derive(Debug)]
pub struct Client {
    /// The public API key; the user id of the Basic scheme.
    pub public_key: String,
    /// The private API key; the password of the Basic scheme.
    pub private_key: String,
    /// The ready `Authorization` header value.
    pub encoded_credentials: String,
    /// The base URL requests go to, without the `/send` path.
    pub api_base: String,
}

impl Client {
    /// Both keys are non-empty and the encoded credentials are the
    /// Basic-Auth header value for the pair.
    pub open spec fn wf(self) -> bool {
        &&& self.public_key@.len() > 0
        &&& self.private_key@.len() > 0
        &&& self.encoded_credentials@ == "Basic "@ + base64_of(
            self.public_key@ + ":"@ + self.private_key@,
        )
    }

    /// Creates an authenticated client against one of the two wire
    /// versions.
    ///
    /// Fails exactly when one of the keys is empty, naming the first
    /// missing key.
    pub fn new(send_api_version: SendAPIVersion, public_key: &str, private_key: &str) -> (r:
        Result<Client, ClientError>)
        ensures
            r is Err <==> public_key@.len() == 0 || private_key@.len() == 0,
            r matches Err(e) ==> e == (if public_key@.len() == 0 {
                ClientError::MissingPublicKey
            } else {
                ClientError::MissingPrivateKey
            }),
            r matches Ok(c) ==> c.wf() && c.public_key@ == public_key@ && c.private_key@
                == private_key@ && c.api_base@ == api_url_of(send_api_version),
    {
        if public_key.is_empty() {
            return Err(ClientError::MissingPublicKey);
        }
        if private_key.is_empty() {
            return Err(ClientError::MissingPrivateKey);
        }
        let encoded_credentials = basic_auth_header(public_key, private_key);
        Ok(
            Client {
                public_key: public_key.to_owned(),
                private_key: private_key.to_owned(),
                encoded_credentials,
                api_base: send_api_version.get_api_url(),
            },
        )
    }

    /// Creates an authenticated client against a custom base URL, which
    /// must be a well-formed absolute URL.
    ///
    /// Fails exactly when one of the keys is empty or the URL is refused,
    /// naming the first fault.
    pub fn with_custom_base_url(base_url: &str, public_key: &str, private_key: &str) -> (r: Result<
        Client,
        ClientError,
    >)
        ensures
            r is Err <==> public_key@.len() == 0 || private_key@.len() == 0 || !url_accepts(
                base_url@,
            ),
            r matches Err(e) ==> (if public_key@.len() == 0 {
                e == ClientError::MissingPublicKey
            } else if private_key@.len() == 0 {
                e == ClientError::MissingPrivateKey
            } else {
                e matches ClientError::InvalidBaseUrl(u) && u@ == base_url@
            }),
            r matches Ok(c) ==> c.wf() && c.public_key@ == public_key@ && c.private_key@
                == private_key@ && c.api_base@ == base_url@,
    {
        if public_key.is_empty() {
            return Err(ClientError::MissingPublicKey);
        }
        if private_key.is_empty() {
            return Err(ClientError::MissingPrivateKey);
        }
        if !is_valid_url(base_url) {
            return Err(ClientError::InvalidBaseUrl(base_url.to_owned()));
        }
        let encoded_credentials = basic_auth_header(public_key, private_key);
        Ok(
            Client {
                public_key: public_key.to_owned(),
                private_key: private_key.to_owned(),
                encoded_credentials,
                api_base: base_url.to_owned(),
            },
        )
    }

    /// Prepares the one POST request a send needs: the `/send` endpoint
    /// under the base URL, the JSON content type, the Basic-Auth header,
    /// and the payload's exact JSON body.
    pub fn prepare_send<P: Payload>(&self, payload: &P) -> (req: SendRequest)
        ensures
            req.url@ == self.api_base@ + "/send"@,
            req.content_type@ == "application/json"@,
            req.authorization@ == self.encoded_credentials@,
            req.body@ == render(payload.json_data()),
    {
        let mut url = self.api_base.clone();
        url.append("/send");
        SendRequest {
            url,
            content_type: "application/json".to_owned(),
            authorization: self.encoded_credentials.clone(),
            body: payload.to_json(),
        }
    }

    /// Classifies the HTTP answer of a send.
    ///
    /// An error status (4xx or 5xx) comes back as an [`ClientError::ApiError`]
    /// carrying the classified status and the raw body verbatim. Any other
    /// status is a success and its body must parse as the documented
    /// `Sent`-list shape; a body that does not comes back verbatim inside
    /// [`ClientError::MalformedResponse`].
    pub fn interpret_response(&self, status: u16, body: String) -> (r: Result<
        Response,
        ClientError,
    >)
        ensures
            400 <= status < 600 ==> (r matches Err(e) && (e matches ClientError::ApiError(api)
                && api.status_code == status_of(status) && api.message == body)),
            !(400 <= status < 600) ==> (match json_parse(body@) {
                Some(d) => (match response_of(d) {
                    Some(sds) => r matches Ok(resp) && response_view(resp) == sds,
                    None => r matches Err(e) && (e matches ClientError::MalformedResponse {
                        body: b,
                    } && b@ == body@),
                }),
                None => r matches Err(e) && (e matches ClientError::MalformedResponse { body: b }
                    && b@ == body@),
            }),
    {
        if 400 <= status && status < 600 {
            let api_error = Error::from_api_response(StatusCode::from_u16(status), body);
            return Err(ClientError::ApiError(api_error));
        }
        Response::from_api_response(body)
    }
}

/// Everything one send exchange needs from the transport: where to POST,
/// the two headers, and the body.
pub struct SendRequest {
    /// The full URL of the send endpoint.
    pub url: String,
    /// The `Content-Type` header value.
    pub content_type: String,
    /// The `Authorization` header value.
    pub authorization: String,
    /// The JSON request body.
    pub body: String,
}

} // verus!
