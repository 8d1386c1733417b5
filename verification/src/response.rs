//! The success answer of the Send API, and its parsing.
//!
//! The raw body text is parsed by serde_json into a document value; the
//! walk from that document to the typed [`Response`] is verified against
//! the [`JsonData`] the document stands for.

use vstd::prelude::*;

use crate::error::ClientError;
use crate::json::JsonData;
use crate::json::obj_lookup;

verus! {

/// serde_json's document value, held opaquely; what it stands for is
/// reached through [`value_data`].
#[verifier::external_type_specification]
#[verifier::external_body]
pub struct ExValue(serde_json::Value);

/// The document a parse of the text would produce: the JSON document when
/// serde_json accepts the text, nothing when it refuses it. A number that
/// is an integer machine integers can hold stands as `Int`; any other
/// number stands as `Float`.
pub uninterp spec fn json_parse(s: Seq<char>) -> Option<JsonData>;

/// The document a `serde_json::Value` holds, with object members in the
/// map's order and keys unique.
pub uninterp spec fn value_data(v: serde_json::Value) -> JsonData;

/// Relies on `serde_json::from_str::<Value>`: parses JSON text into its
/// document, refusing exactly the texts that are not valid JSON.
#[verifier::external_body]
fn parse_json(s: &str) -> (r: Option<serde_json::Value>)
    ensures
        (r is Some) == (json_parse(s@) is Some),
        r matches Some(v) ==> json_parse(s@) == Some(value_data(v)),
{
    serde_json::from_str::<serde_json::Value>(s).ok()
}

/// Relies on `serde_json::Value::get` with a string index: on an object,
/// the value under the key, if any; on anything else, nothing.
#[verifier::external_body]
fn value_get<'a>(v: &'a serde_json::Value, key: &str) -> (r: Option<&'a serde_json::Value>)
    ensures
        value_data(*v) matches JsonData::Obj(ms) ==> (match obj_lookup(ms, key@) {
            Some(d) => r matches Some(m) && value_data(*m) == d,
            None => r is None,
        }),
        !(value_data(*v) is Obj) ==> r is None,
{
    v.get(key)
}

/// Relies on `serde_json::Value::as_str`: the text of a string value,
/// nothing for any other value.
#[verifier::external_body]
fn value_as_str(v: &serde_json::Value) -> (r: Option<String>)
    ensures
        (r is Some) == (value_data(*v) is Str),
        r matches Some(rs) ==> (value_data(*v) matches JsonData::Str(s) && rs@ == s),
{
    v.as_str().map(|s| s.to_owned())
}

/// Relies on `serde_json::Value::as_u64`: the value of an unsigned
/// integer number, nothing for any other value.
#[verifier::external_body]
fn value_as_u64(v: &serde_json::Value) -> (r: Option<u64>)
    ensures
        r == (match value_data(*v) {
            JsonData::Int(n) => if 0 <= n < 0x1_0000_0000_0000_0000 {
                Some(n as u64)
            } else {
                None::<u64>
            },
            _ => None::<u64>,
        }),
{
    v.as_u64()
}

/// Relies on `serde_json::Value::as_array`: the elements of an array
/// value, nothing for any other value.
#[verifier::external_body]
fn value_as_array<'a>(v: &'a serde_json::Value) -> (r: Option<&'a Vec<serde_json::Value>>)
    ensures
        (r is Some) == (value_data(*v) is Arr),
        r matches Some(a) ==> (value_data(*v) matches JsonData::Arr(items) && a@.len()
            == items.len() && (forall|i: int|
            0 <= i < items.len() ==> #[trigger] value_data(a@[i]) == items[i])),
{
    v.as_array()
}

/// Details of one sent message, as the API reports them on success.
#[derive(Debug, PartialEq, Eq)]
pub struct Sent {
    pub email: String,
    pub message_id: u64,
    pub message_uuid: String,
}

/// The success answer of the Send API: one entry per sent message.
#[derive(Debug, PartialEq, Eq)]
pub struct Response {
    pub sent: Vec<Sent>,
}

/// One sent entry at the specification level.
pub ghost struct SentData {
    pub email: Seq<char>,
    pub message_id: u64,
    pub message_uuid: Seq<char>,
}

/// The sent entry a JSON document describes: an object with a string
/// `Email`, an unsigned integer `MessageID` and a string `MessageUUID`.
/// Anything else describes none.
pub open spec fn sent_of(d: JsonData) -> Option<SentData> {
    match d {
        JsonData::Obj(ms) => (match (
            obj_lookup(ms, "Email"@),
            obj_lookup(ms, "MessageID"@),
            obj_lookup(ms, "MessageUUID"@),
        ) {
            (Some(JsonData::Str(email)), Some(JsonData::Int(n)), Some(JsonData::Str(uuid))) => if 0
                <= n < 0x1_0000_0000_0000_0000 {
                Some(SentData { email, message_id: n as u64, message_uuid: uuid })
            } else {
                None
            },
            _ => None,
        }),
        _ => None,
    }
}

/// The sent entries a list of JSON documents describes, if every one of
/// them describes one.
pub open spec fn sents_of(items: Seq<JsonData>) -> Option<Seq<SentData>>
    decreases items.len(),
{
    if items.len() == 0 {
        Some(Seq::empty())
    } else {
        match (sents_of(items.drop_last()), sent_of(items.last())) {
            (Some(rest), Some(s)) => Some(rest.push(s)),
            _ => None,
        }
    }
}

/// The response a JSON document describes: an object whose `Sent` member
/// is an array of sent entries. Anything else describes none.
pub open spec fn response_of(d: JsonData) -> Option<Seq<SentData>> {
    match d {
        JsonData::Obj(ms) => (match obj_lookup(ms, "Sent"@) {
            Some(JsonData::Arr(items)) => sents_of(items),
            _ => None,
        }),
        _ => None,
    }
}

/// The entries a list of typed sent values stands for.
pub open spec fn sent_views(s: Seq<Sent>) -> Seq<SentData> {
    s.map_values(
        |s: Sent| SentData { email: s.email@, message_id: s.message_id, message_uuid: s.message_uuid@ },
    )
}

/// The entries a typed response stands for.
pub open spec fn response_view(r: Response) -> Seq<SentData> {
    sent_views(r.sent@)
}

/// One bad item anywhere makes the whole list describe no entries.
proof fn lemma_sents_of_bad_item(items: Seq<JsonData>, k: int)
    requires
        0 <= k < items.len(),
        sent_of(items[k]) is None,
    ensures
        sents_of(items) is None,
    decreases items.len(),
{
    if k < items.len() - 1 {
        assert(items.drop_last()[k] == items[k]);
        lemma_sents_of_bad_item(items.drop_last(), k);
    }
}

/// Reads one sent entry out of a document value.
fn sent_from_value(v: &serde_json::Value) -> (r: Option<Sent>)
    ensures
        match sent_of(value_data(*v)) {
            Some(sd) => r matches Some(s) && s.email@ == sd.email && s.message_id == sd.message_id
                && s.message_uuid@ == sd.message_uuid,
            None => r is None,
        },
{
    let email_field = match value_get(v, "Email") {
        Some(f) => f,
        None => {
            return None;
        },
    };
    let email = match value_as_str(email_field) {
        Some(s) => s,
        None => {
            return None;
        },
    };
    let id_field = match value_get(v, "MessageID") {
        Some(f) => f,
        None => {
            return None;
        },
    };
    let message_id = match value_as_u64(id_field) {
        Some(n) => n,
        None => {
            return None;
        },
    };
    let uuid_field = match value_get(v, "MessageUUID") {
        Some(f) => f,
        None => {
            return None;
        },
    };
    let message_uuid = match value_as_str(uuid_field) {
        Some(s) => s,
        None => {
            return None;
        },
    };
    Some(Sent { email, message_id, message_uuid })
}

impl Response {
    /// Parses the body text of a success answer into the typed response.
    ///
    /// Returns the parsed entries exactly when serde_json accepts the body
    /// and its document has the documented `Sent`-list shape; any other
    /// body comes back verbatim inside a `MalformedResponse` error.
    pub fn from_api_response(body: String) -> (r: Result<Response, ClientError>)
        ensures
            match json_parse(body@) {
                Some(d) => (match response_of(d) {
                    Some(sds) => r matches Ok(resp) && response_view(resp) == sds,
                    None => r matches Err(e) && (e matches ClientError::MalformedResponse {
                        body: b,
                    } && b@ == body@),
                }),
                None => r matches Err(e) && (e matches ClientError::MalformedResponse { body: b }
                    && b@ == body@),
            },
    {
        let doc = match parse_json(body.as_str()) {
            Some(doc) => doc,
            None => {
                return Err(ClientError::MalformedResponse { body });
            },
        };
        let sent_field = match value_get(&doc, "Sent") {
            Some(f) => f,
            None => {
                return Err(ClientError::MalformedResponse { body });
            },
        };
        let items = match value_as_array(sent_field) {
            Some(a) => a,
            None => {
                return Err(ClientError::MalformedResponse { body });
            },
        };
        let ghost items_data = value_data(*sent_field)->Arr_0;
        let mut sent: Vec<Sent> = Vec::new();
        let n = items.len();
        let mut i: usize = 0;
        while i < n
            invariant
                n == items@.len(),
                n == items_data.len(),
                i <= n,
                json_parse(body@) == Some(value_data(doc)),
                response_of(value_data(doc)) == sents_of(items_data),
                forall|j: int| 0 <= j < n ==> #[trigger] value_data(items@[j]) == items_data[j],
                sents_of(items_data.take(i as int)) matches Some(sds) && sds == sent_views(sent@),
            decreases n - i,
        {
            let entry = match sent_from_value(&items[i]) {
                Some(s) => s,
                None => {
                    proof {
                        assert(value_data(items@[i as int]) == items_data[i as int]);
                        assert(sent_of(items_data[i as int]) is None);
                        lemma_sents_of_bad_item(items_data, i as int);
                    }
                    return Err(ClientError::MalformedResponse { body });
                },
            };
            let ghost old_sent = sent@;
            sent.push(entry);
            proof {
                let ghost t1 = items_data.take(i + 1);
                assert(t1.drop_last() =~= items_data.take(i as int));
                assert(t1.last() == items_data[i as int]);
                assert(sent_views(sent@) =~= sent_views(old_sent).push(
                    SentData {
                        email: sent@.last().email@,
                        message_id: sent@.last().message_id,
                        message_uuid: sent@.last().message_uuid@,
                    },
                ));
            }
            i = i + 1;
        }
        proof {
            assert(items_data.take(n as int) =~= items_data);
        }
        Ok(Response { sent })
    }
}

} // verus!
