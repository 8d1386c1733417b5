//! The capability every sendable message type implements.

use vstd::prelude::*;

use crate::json::JsonData;
use crate::json::render;

verus! {

/// Every `struct` that is sent through the Send API implements `Payload`:
/// it serializes itself to the exact JSON request body the remote service
/// expects.
pub trait Payload {
    /// The JSON document this payload serializes to.
    spec fn json_data(&self) -> JsonData;

    /// Produces the JSON request body: the exact rendering of
    /// [`Payload::json_data`].
    fn to_json(&self) -> (r: String)
        ensures
            r@ == render(self.json_data()),
    ;
}

} // verus!
