//! A client library for the Mailjet Send API.
//!
//! The library models the outbound request payloads (messages, recipients,
//! attachments), serializes them to the exact JSON text the remote service
//! expects, prepares the authenticated HTTP request, and interprets the
//! response into typed success and error values. The HTTP transport itself
//! is left to the caller.

pub mod attachment;
pub mod client;
pub mod error;
pub mod json;
pub mod payload;
pub mod recipient;
pub mod response;
pub mod status;
pub mod v3;
pub mod v3_1;
pub mod version;
