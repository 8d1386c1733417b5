//! Email attachments, regular and inline.

use vstd::prelude::*;

use crate::json::JsonData;
use crate::json::JsonValue;
use crate::json::arr_new;
use crate::json::arr_push;
use crate::json::jdata;
use crate::json::jdata_seq;
use crate::json::member_data_seq;
use crate::json::obj_new;
use crate::json::obj_push_str;

verus! {

/// An email attachment, for both regular and inline use.
///
/// The two roles are told apart only by which collection of the message the
/// attachment is placed in, not by its own type. `content` is expected to
/// be base64-encoded already; the type does not check that.
pub struct Attachment {
    pub content_type: String,
    pub filename: String,
    pub content: String,
}

/// The JSON object an attachment serializes to.
pub open spec fn attachment_data(a: Attachment) -> JsonData {
    JsonData::Obj(
        seq![
            ("Content-type"@, JsonData::Str(a.content_type@)),
            ("Filename"@, JsonData::Str(a.filename@)),
            ("content"@, JsonData::Str(a.content@)),
        ],
    )
}

/// The JSON objects of a list of attachments, in order.
pub open spec fn attachments_data(s: Seq<Attachment>) -> Seq<JsonData> {
    s.map_values(|a: Attachment| attachment_data(a))
}

impl Attachment {
    /// Creates a new `Attachment`.
    pub fn new(content_type: &str, filename: &str, content: &str) -> (r: Self)
        ensures
            r.content_type@ == content_type@,
            r.filename@ == filename@,
            r.content@ == content@,
    {
        Self {
            content_type: content_type.to_owned(),
            filename: filename.to_owned(),
            content: content.to_owned(),
        }
    }
}

/// Builds the JSON object for one attachment.
pub fn attachment_value(a: &Attachment) -> (v: JsonValue)
    ensures
        jdata(v) == attachment_data(*a),
{
    let mut m = obj_new();
    obj_push_str(&mut m, "Content-type", a.content_type.as_str());
    obj_push_str(&mut m, "Filename", a.filename.as_str());
    obj_push_str(&mut m, "content", a.content.as_str());
    proof {
        assert(member_data_seq(m@) =~= seq![
            ("Content-type"@, JsonData::Str(a.content_type@)),
            ("Filename"@, JsonData::Str(a.filename@)),
            ("content"@, JsonData::Str(a.content@)),
        ]);
    }
    JsonValue::Object(m)
}

/// Builds the JSON array of attachment objects for `s`.
pub fn attachments_value(s: &Vec<Attachment>) -> (v: JsonValue)
    ensures
        jdata(v) == JsonData::Arr(attachments_data(s@)),
{
    let mut a = arr_new();
    let n = s.len();
    let mut i: usize = 0;
    while i < n
        invariant
            n == s@.len(),
            i <= n,
            jdata_seq(a@) == attachments_data(s@.take(i as int)),
        decreases n - i,
    {
        let av = attachment_value(&s[i]);
        arr_push(&mut a, av);
        proof {
            assert(attachments_data(s@.take(i + 1)) =~= attachments_data(s@.take(i as int)).push(
                attachment_data(s@[i as int]),
            ));
        }
        i = i + 1;
    }
    proof {
        assert(s@.take(n as int) =~= s@);
    }
    JsonValue::Array(a)
}

} // verus!
