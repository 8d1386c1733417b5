//! Send API v3.1 payloads: a message and the `Messages` envelope that
//! every v3.1 request body is wrapped in.

use vstd::prelude::*;

use crate::json::JsonData;
use crate::json::JsonValue;
use crate::json::arr_new;
use crate::json::arr_push;
use crate::json::jdata;
use crate::json::jdata_seq;
use crate::json::member_data_seq;
use crate::json::obj_new;
use crate::json::obj_push;
use crate::json::obj_push_str;
use crate::json::render;
use crate::json::render_value;
use crate::payload::Payload;
use crate::recipient::Recipient;
use crate::recipient::recipient_data;
use crate::recipient::recipient_value;
use crate::recipient::recipients_data;
use crate::recipient::recipients_value;

verus! {

/// A Send API v3.1 message.
///
/// The recipients listed in `to` receive a common message, showing every
/// other recipient. There is no addressing-mode ambiguity at this wire
/// version, and the subject always serializes, as an empty string when it
/// was not supplied.
pub struct Message {
    /// The sender of the email.
    pub from: Recipient,
    /// The recipients who will receive the email.
    pub to: Vec<Recipient>,
    /// The subject of the email; empty when not supplied.
    pub subject: String,
    /// The text content of the email.
    pub text_part: String,
    /// The HTML content of the email.
    pub html_part: Option<String>,
}

/// The members of the JSON object a v3.1 message serializes to. The
/// subject is always sent; an unset HTML part is sent as `null`.
pub open spec fn message_members(m: Message) -> Seq<(Seq<char>, JsonData)> {
    seq![
        ("From"@, recipient_data(m.from)),
        ("To"@, JsonData::Arr(recipients_data(m.to@))),
        ("Subject"@, JsonData::Str(m.subject@)),
        ("TextPart"@, JsonData::Str(m.text_part@)),
        (
            "HTMLPart"@,
            match m.html_part {
                Some(s) => JsonData::Str(s@),
                None => JsonData::Null,
            },
        ),
    ]
}

/// Builds the JSON object for one v3.1 message.
fn message_value(m: &Message) -> (v: JsonValue)
    ensures
        jdata(v) == JsonData::Obj(message_members(*m)),
{
    let mut mm = obj_new();
    let from_value = recipient_value(&m.from);
    obj_push(&mut mm, "From", from_value);
    let to_value = recipients_value(&m.to);
    obj_push(&mut mm, "To", to_value);
    obj_push_str(&mut mm, "Subject", m.subject.as_str());
    obj_push_str(&mut mm, "TextPart", m.text_part.as_str());
    match &m.html_part {
        Some(s) => obj_push_str(&mut mm, "HTMLPart", s.as_str()),
        None => obj_push(&mut mm, "HTMLPart", JsonValue::Null),
    }
    proof {
        assert(member_data_seq(mm@) =~= message_members(*m));
    }
    JsonValue::Object(mm)
}

impl Message {
    /// Creates a message; a missing subject becomes the empty string.
    pub fn new(
        from: Recipient,
        to: Vec<Recipient>,
        subject: Option<String>,
        text_part: String,
        html_part: Option<String>,
    ) -> (m: Self)
        ensures
            m.from == from,
            m.to == to,
            m.subject@ == (match subject {
                Some(s) => s@,
                None => Seq::<char>::empty(),
            }),
            m.text_part == text_part,
            m.html_part == html_part,
    {
        let final_subject = match subject {
            Some(s) => s,
            None => String::new(),
        };
        Self { from, to, subject: final_subject, text_part, html_part }
    }

    /// Produces the JSON text of this single message, without the
    /// `Messages` envelope: the exact rendering of its member object.
    pub fn to_json(&self) -> (r: String)
        ensures
            r@ == render(JsonData::Obj(message_members(*self))),
    {
        let v = message_value(self);
        render_value(&v)
    }
}

/// The collection of v3.1 messages that forms the root JSON object of a
/// v3.1 request: the wire format has no bare-message shape, so even one
/// message travels inside this envelope.
pub struct Messages {
    messages: Vec<Message>,
}

/// The JSON documents of a list of v3.1 messages, in order.
pub open spec fn messages_data(ms: Seq<Message>) -> Seq<JsonData> {
    ms.map_values(|m: Message| JsonData::Obj(message_members(m)))
}

impl Messages {
    /// The messages the envelope carries, in order.
    pub closed spec fn messages_seq(self) -> Seq<Message> {
        self.messages@
    }

    /// Creates an envelope carrying one message.
    pub fn new(message: Message) -> (ms: Self)
        ensures
            ms.messages_seq() == seq![message],
    {
        let mut messages = Vec::new();
        messages.push(message);
        let ms = Self { messages };
        proof {
            assert(ms.messages@ =~= seq![message]);
        }
        ms
    }
}

impl Payload for Messages {
    /// The JSON object this envelope serializes to: one `Messages` member
    /// holding the array of message objects.
    open spec fn json_data(&self) -> JsonData {
        JsonData::Obj(
            seq![("Messages"@, JsonData::Arr(messages_data(self.messages_seq())))],
        )
    }

    fn to_json(&self) -> (r: String) {
        let mut arr = arr_new();
        let n = self.messages.len();
        let mut i: usize = 0;
        while i < n
            invariant
                n == self.messages@.len(),
                i <= n,
                jdata_seq(arr@) == messages_data(self.messages@.take(i as int)),
            decreases n - i,
        {
            let mv = message_value(&self.messages[i]);
            arr_push(&mut arr, mv);
            proof {
                assert(messages_data(self.messages@.take(i + 1)) =~= messages_data(
                    self.messages@.take(i as int),
                ).push(JsonData::Obj(message_members(self.messages@[i as int]))));
            }
            i = i + 1;
        }
        let mut mm = obj_new();
        obj_push(&mut mm, "Messages", JsonValue::Array(arr));
        proof {
            assert(self.messages@.take(n as int) =~= self.messages@);
            assert(member_data_seq(mm@) =~= seq![
                ("Messages"@, JsonData::Arr(messages_data(self.messages_seq()))),
            ]);
        }
        let v = JsonValue::Object(mm);
        render_value(&v)
    }
}

/// An envelope made from a single message always serializes as that one
/// message's object inside a one-element `Messages` array, never as a bare
/// object.
pub proof fn lemma_single_message_envelope(ms: Messages, m: Message)
    requires
        ms.messages_seq() == seq![m],
    ensures
        ms.json_data() == JsonData::Obj(
            seq![
                ("Messages"@, JsonData::Arr(seq![JsonData::Obj(message_members(m))])),
            ],
        ),
{
    assert(messages_data(ms.messages_seq()) =~= seq![JsonData::Obj(message_members(m))]);
}

} // verus!
