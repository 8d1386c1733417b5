//! The two wire versions of the Send API.

use vstd::prelude::*;

verus! {

/// Which Send API version a client talks to.
#[derive(Debug, Clone, Copy, PartialEq, Eq, Structural)]
pub enum SendAPIVersion {
    /// The Send API version 3.
    V3,
    /// The Send API version 3.1.
    V3_1,
}

/// The well-known base URL of each wire version.
pub open spec fn api_url_of(v: SendAPIVersion) -> Seq<char> {
    match v {
        SendAPIVersion::V3 => "https://api.mailjet.com/v3"@,
        SendAPIVersion::V3_1 => "https://api.mailjet.com/v3.1"@,
    }
}

impl SendAPIVersion {
    /// The base URL to use for this version.
    pub fn get_api_url(&self) -> (r: String)
        ensures
            r@ == api_url_of(*self),
    {
        match self {
            SendAPIVersion::V3 => "https://api.mailjet.com/v3".to_owned(),
            SendAPIVersion::V3_1 => "https://api.mailjet.com/v3.1".to_owned(),
        }
    }
}

} // verus!
