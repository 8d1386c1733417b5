//! Send API v3 payloads: the `Message` with its two mutually exclusive
//! addressing modes, and the older `Email` shape.

use vstd::prelude::*;

use crate::attachment::Attachment;
use crate::attachment::attachments_data;
use crate::attachment::attachments_value;
use crate::json::JsonData;
use crate::json::JsonObjWriter;
use crate::json::JsonValue;
use crate::json::lemma_concat_assoc;
use crate::json::lemma_concat_empty;
use crate::json::lemma_concat_single;
use crate::json::lemma_obj_lookup_concat;
use crate::json::lemma_obj_lookup_single;
use crate::json::member_data_seq;
use crate::json::obj_has_key;
use crate::json::obj_lookup;
use crate::json::obj_new;
use crate::json::obj_push_str;
use crate::payload::Payload;
use crate::recipient::Recipient;
use crate::recipient::join_comma_separated;
use crate::recipient::joined_lines;
use crate::recipient::recipients_data;
use crate::recipient::recipients_value;

verus! {

broadcast use vstd::string::group_string_axioms;

/// Which of the two mutually exclusive recipient-specification schemes a
/// v3 message uses.
///
/// `Recipients` sends each recipient a separate, private message;
/// `ToCcBcc` sends one message on which all recipients see each other,
/// legacy SMTP-header style. The invalid state, both at once, is not
/// representable.
pub enum AddressingMode {
    /// No recipients chosen yet.
    Unset,
    /// The `Recipients` wire field.
    Recipients(Vec<Recipient>),
    /// The `To`, `Cc` and `Bcc` wire fields.
    ToCcBcc { to: Vec<Recipient>, cc: Option<Vec<Recipient>>, bcc: Option<Vec<Recipient>> },
}

/// A caller error in building a message.
#[derive(Debug, PartialEq, Eq, Structural)]
pub enum MessageError {
    /// One addressing mode was requested while the other was already
    /// populated. A message uses either `Recipients` or `To`/`Cc`/`Bcc`,
    /// never both.
    ConflictingAddressingMode,
}

/// A Send API v3 message.
pub struct Message {
    /// The verified sender email address.
    pub from_email: String,
    /// The name of the sender.
    pub from_name: String,
    /// The subject of the email.
    pub subject: Option<String>,
    /// The raw text content of the email.
    pub text_part: Option<String>,
    /// The HTML content of the email.
    pub html_part: Option<String>,
    /// How the recipients of this message are specified.
    pub addressing: AddressingMode,
    /// Regular (click-to-open) attachments.
    pub attachments: Option<Vec<Attachment>>,
    /// Attachments referenced from the HTML body via `cid:filename`.
    pub inline_attachments: Option<Vec<Attachment>>,
    /// Variables for email templating, sent as the `Vars` object.
    pub vars: Option<Vec<(String, JsonValue)>>,
    /// Template id, as returned by the template resource.
    pub mj_template_id: Option<u64>,
    /// Whether the template language is interpreted for this message.
    pub use_mj_template_language: Option<bool>,
    /// Custom id linked to the message.
    pub mj_custom_id: Option<String>,
    /// Caller payload carried along with message events.
    pub mj_event_payload: Option<String>,
    /// Custom email headers, such as a `Reply-To` address.
    pub headers: Option<Vec<(String, String)>>,
}

impl Message {
    /// The recipients accumulated in `Recipients` mode; empty in any other
    /// mode.
    pub open spec fn recipients_seq(self) -> Seq<Recipient> {
        match self.addressing {
            AddressingMode::Recipients(rs) => rs@,
            _ => Seq::empty(),
        }
    }

    /// Creates a message with the minimum required values; every other
    /// field starts unset.
    ///
    /// Recipients are defined later, through [`Message::push_recipient`],
    /// [`Message::push_many_recipients`] or [`Message::set_receivers`].
    pub fn new(
        from_email: &str,
        from_name: &str,
        subject: Option<String>,
        text_part: Option<String>,
    ) -> (m: Self)
        ensures
            m.from_email@ == from_email@,
            m.from_name@ == from_name@,
            m.subject == subject,
            m.text_part == text_part,
            (m.html_part is None),
            (m.addressing is Unset),
            (m.attachments is None),
            (m.inline_attachments is None),
            (m.vars is None),
            (m.mj_template_id is None),
            (m.use_mj_template_language is None),
            (m.mj_custom_id is None),
            (m.mj_event_payload is None),
            (m.headers is None),
    {
        Self {
            from_email: from_email.to_owned(),
            from_name: from_name.to_owned(),
            subject,
            text_part,
            html_part: None,
            addressing: AddressingMode::Unset,
            attachments: None,
            inline_attachments: None,
            vars: None,
            mj_template_id: None,
            use_mj_template_language: None,
            mj_custom_id: None,
            mj_event_payload: None,
            headers: None,
        }
    }

    /// Whether any of the `To`, `Cc`, `Bcc` fields is populated, which
    /// rules the `Recipients` field out.
    pub fn have_email_fields_filled(&self) -> (r: bool)
        ensures
            r == (self.addressing is ToCcBcc),
    {
        match &self.addressing {
            AddressingMode::ToCcBcc { .. } => true,
            _ => false,
        }
    }

    /// Appends one recipient to the `Recipients` field.
    ///
    /// Fails, leaving the message unchanged, exactly when `To`/`Cc`/`Bcc`
    /// addressing is already populated.
    pub fn push_recipient(&mut self, recipient: Recipient) -> (res: Result<(), MessageError>)
        ensures
            res is Err <==> (old(self).addressing is ToCcBcc),
            res is Err ==> *final(self) == *old(self)
                && res == Err::<(), MessageError>(MessageError::ConflictingAddressingMode),
            res is Ok ==> final(self).addressing is Recipients
                && final(self).recipients_seq() == old(self).recipients_seq().push(recipient)
                && *final(self) == (Message { addressing: final(self).addressing, ..*old(self) }),
    {
        if self.have_email_fields_filled() {
            return Err(MessageError::ConflictingAddressingMode);
        }
        if let AddressingMode::Recipients(rs) = &mut self.addressing {
            rs.push(recipient);
        } else {
            let mut rs: Vec<Recipient> = Vec::new();
            rs.push(recipient);
            self.addressing = AddressingMode::Recipients(rs);
        }
        proof {
            assert(final(self).recipients_seq() =~= old(self).recipients_seq().push(recipient));
        }
        Ok(())
    }

    /// Appends every given recipient to the `Recipients` field, in order.
    ///
    /// Fails, leaving the message unchanged, exactly when `To`/`Cc`/`Bcc`
    /// addressing is already populated.
    pub fn push_many_recipients(&mut self, recipients: Vec<Recipient>) -> (res: Result<
        (),
        MessageError,
    >)
        ensures
            res is Err <==> (old(self).addressing is ToCcBcc),
            res is Err ==> *final(self) == *old(self)
                && res == Err::<(), MessageError>(MessageError::ConflictingAddressingMode),
            res is Ok ==> final(self).addressing is Recipients
                && final(self).recipients_seq() == old(self).recipients_seq() + recipients@
                && *final(self) == (Message { addressing: final(self).addressing, ..*old(self) }),
    {
        if self.have_email_fields_filled() {
            return Err(MessageError::ConflictingAddressingMode);
        }
        let mut incoming = recipients;
        if let AddressingMode::Recipients(rs) = &mut self.addressing {
            rs.append(&mut incoming);
        } else {
            let mut rs: Vec<Recipient> = Vec::new();
            rs.append(&mut incoming);
            self.addressing = AddressingMode::Recipients(rs);
            proof {
                assert(final(self).recipients_seq() =~= old(self).recipients_seq() + recipients@);
            }
        }
        Ok(())
    }

    /// Sets the `To`, `Cc` and `Bcc` fields, replacing any earlier values
    /// wholesale.
    ///
    /// Fails, leaving the message unchanged, exactly when the `Recipients`
    /// field is already populated.
    pub fn set_receivers(
        &mut self,
        to: Vec<Recipient>,
        cc: Option<Vec<Recipient>>,
        bcc: Option<Vec<Recipient>>,
    ) -> (res: Result<(), MessageError>)
        ensures
            res is Err <==> (old(self).addressing is Recipients),
            res is Err ==> *final(self) == *old(self)
                && res == Err::<(), MessageError>(MessageError::ConflictingAddressingMode),
            res is Ok ==> final(self).addressing == (AddressingMode::ToCcBcc { to, cc, bcc })
                && *final(self) == (Message { addressing: final(self).addressing, ..*old(self) }),
    {
        match &self.addressing {
            AddressingMode::Recipients(_) => Err(MessageError::ConflictingAddressingMode),
            _ => {
                self.addressing = AddressingMode::ToCcBcc { to, cc, bcc };
                Ok(())
            },
        }
    }

    /// The attachments of the given kind accumulated so far.
    pub open spec fn attachments_seq(o: Option<Vec<Attachment>>) -> Seq<Attachment> {
        match o {
            Some(s) => s@,
            None => Seq::empty(),
        }
    }

    /// Appends a regular attachment, independent of the addressing mode.
    ///
    /// The recipient will have to click to open it. The content needs to be
    /// base64-encoded, and ought to stay below the 15 MB the API accepts.
    pub fn attach(&mut self, attachment: Attachment)
        ensures
            (final(self).attachments is Some),
            Self::attachments_seq(final(self).attachments) == Self::attachments_seq(
                old(self).attachments,
            ).push(attachment),
            *final(self) == (Message { attachments: final(self).attachments, ..*old(self) }),
    {
        if let Some(s) = &mut self.attachments {
            s.push(attachment);
        } else {
            let mut s: Vec<Attachment> = Vec::new();
            s.push(attachment);
            self.attachments = Some(s);
            proof {
                assert(final(self).attachments->0@ =~= Self::attachments_seq(
                    old(self).attachments,
                ).push(attachment));
            }
        }
    }

    /// Appends an inline attachment, which the HTML body can reference as
    /// `cid:filename`.
    ///
    /// The content needs to be base64-encoded, and ought to stay below the
    /// 15 MB the API accepts.
    pub fn attach_inline(&mut self, attachment: Attachment)
        ensures
            (final(self).inline_attachments is Some),
            Self::attachments_seq(final(self).inline_attachments) == Self::attachments_seq(
                old(self).inline_attachments,
            ).push(attachment),
            *final(self) == (Message {
                inline_attachments: final(self).inline_attachments,
                ..*old(self)
            }),
    {
        if let Some(s) = &mut self.inline_attachments {
            s.push(attachment);
        } else {
            let mut s: Vec<Attachment> = Vec::new();
            s.push(attachment);
            self.inline_attachments = Some(s);
            proof {
                assert(final(self).inline_attachments->0@ =~= Self::attachments_seq(
                    old(self).inline_attachments,
                ).push(attachment));
            }
        }
    }

    /// Sets the template id and, in the same step, turns the template
    /// language on: the API reads the one through the other, so the two
    /// fields are never set apart.
    pub fn set_template_id(&mut self, id: u64)
        ensures
            final(self).mj_template_id == Some(id),
            final(self).use_mj_template_language == Some(true),
            *final(self) == (Message {
                mj_template_id: Some(id),
                use_mj_template_language: Some(true),
                ..*old(self)
            }),
    {
        self.mj_template_id = Some(id);
        self.use_mj_template_language = Some(true);
    }

    /// Sets the custom id carried in `Mj-CustomID`.
    pub fn set_custom_id(&mut self, id: String)
        ensures
            final(self).mj_custom_id == Some(id),
            *final(self) == (Message { mj_custom_id: Some(id), ..*old(self) }),
    {
        self.mj_custom_id = Some(id);
    }

    /// Sets the event payload carried in `Mj-EventPayload`.
    pub fn set_event_payload(&mut self, payload: String)
        ensures
            final(self).mj_event_payload == Some(payload),
            *final(self) == (Message { mj_event_payload: Some(payload), ..*old(self) }),
    {
        self.mj_event_payload = Some(payload);
    }

    /// Sets the custom email headers sent in `Headers`.
    pub fn set_headers(&mut self, headers: Vec<(String, String)>)
        ensures
            final(self).headers == Some(headers),
            *final(self) == (Message { headers: Some(headers), ..*old(self) }),
    {
        self.headers = Some(headers);
    }
}

/// A string member under `key` when the value is set, nothing otherwise.
pub open spec fn opt_str_member(key: Seq<char>, v: Option<String>) -> Seq<(Seq<char>, JsonData)> {
    match v {
        Some(s) => seq![(key, JsonData::Str(s@))],
        None => Seq::empty(),
    }
}

/// A comma-joined recipient-lines member under `key` when the list is set,
/// nothing otherwise.
pub open spec fn opt_lines_member(key: Seq<char>, v: Option<Vec<Recipient>>) -> Seq<
    (Seq<char>, JsonData),
> {
    match v {
        Some(rs) => seq![(key, JsonData::Str(joined_lines(rs@)))],
        None => Seq::empty(),
    }
}

/// The `To`, `Cc` and `Bcc` members contributed by the addressing mode:
/// present, as comma-joined header lines, exactly in `ToCcBcc` mode.
pub open spec fn tocc_members(a: AddressingMode) -> Seq<(Seq<char>, JsonData)> {
    match a {
        AddressingMode::ToCcBcc { to, cc, bcc } => seq![
            ("To"@, JsonData::Str(joined_lines(to@))),
        ] + opt_lines_member("Cc"@, cc) + opt_lines_member("Bcc"@, bcc),
        _ => Seq::empty(),
    }
}

/// The `Recipients` member contributed by the addressing mode: present, as
/// an array of recipient objects, exactly in `Recipients` mode.
pub open spec fn recipients_member(a: AddressingMode) -> Seq<(Seq<char>, JsonData)> {
    match a {
        AddressingMode::Recipients(rs) => seq![
            ("Recipients"@, JsonData::Arr(recipients_data(rs@))),
        ],
        _ => Seq::empty(),
    }
}

/// An attachment-array member under `key` when the list is set, nothing
/// otherwise.
pub open spec fn opt_attachments_member(key: Seq<char>, v: Option<Vec<Attachment>>) -> Seq<
    (Seq<char>, JsonData),
> {
    match v {
        Some(s) => seq![(key, JsonData::Arr(attachments_data(s@)))],
        None => Seq::empty(),
    }
}

/// The `Vars` object member when template variables are set, nothing
/// otherwise.
pub open spec fn vars_member(v: Option<Vec<(String, JsonValue)>>) -> Seq<(Seq<char>, JsonData)> {
    match v {
        Some(vs) => seq![("Vars"@, JsonData::Obj(member_data_seq(vs@)))],
        None => Seq::empty(),
    }
}

/// An integer member under `key` when the value is set, nothing otherwise.
pub open spec fn opt_u64_member(key: Seq<char>, v: Option<u64>) -> Seq<(Seq<char>, JsonData)> {
    match v {
        Some(n) => seq![(key, JsonData::Int(n as int))],
        None => Seq::empty(),
    }
}

/// A boolean member under `key` when the value is set, nothing otherwise.
pub open spec fn opt_bool_member(key: Seq<char>, v: Option<bool>) -> Seq<(Seq<char>, JsonData)> {
    match v {
        Some(b) => seq![(key, JsonData::Bool(b))],
        None => Seq::empty(),
    }
}

/// The members of a flat string-to-string object, in order.
pub open spec fn string_members(s: Seq<(String, String)>) -> Seq<(Seq<char>, JsonData)> {
    s.map_values(|p: (String, String)| (p.0@, JsonData::Str(p.1@)))
}

/// The `Headers` object member when custom headers are set, nothing
/// otherwise.
pub open spec fn headers_member(v: Option<Vec<(String, String)>>) -> Seq<(Seq<char>, JsonData)> {
    match v {
        Some(h) => seq![("Headers"@, JsonData::Obj(string_members(h@)))],
        None => Seq::empty(),
    }
}

/// Builds the key/value pairs of a flat string-to-string JSON object.
fn string_map_object(h: &Vec<(String, String)>) -> (mm: Vec<(String, JsonValue)>)
    ensures
        member_data_seq(mm@) == string_members(h@),
{
    let mut mm = obj_new();
    let n = h.len();
    let mut i: usize = 0;
    proof {
        assert(string_members(h@.take(0)) =~= member_data_seq(mm@));
    }
    while i < n
        invariant
            n == h@.len(),
            i <= n,
            member_data_seq(mm@) == string_members(h@.take(i as int)),
        decreases n - i,
    {
        obj_push_str(&mut mm, h[i].0.as_str(), h[i].1.as_str());
        proof {
            assert(string_members(h@.take(i + 1)) =~= string_members(h@.take(i as int)).push(
                (h@[i as int].0@, JsonData::Str(h@[i as int].1@)),
            ));
        }
        i = i + 1;
    }
    proof {
        assert(h@.take(n as int) =~= h@);
    }
    mm
}

/// The always-present sender members and the optional content members:
/// `FromEmail`, `FromName`, then `Subject`, `Text-part` and `Html-part`
/// when set.
pub open spec fn core_members(m: Message) -> Seq<(Seq<char>, JsonData)> {
    seq![
        ("FromEmail"@, JsonData::Str(m.from_email@)),
        ("FromName"@, JsonData::Str(m.from_name@)),
    ] + opt_str_member("Subject"@, m.subject) + opt_str_member("Text-part"@, m.text_part)
        + opt_str_member("Html-part"@, m.html_part)
}

/// The attachment and template-variable members, each present exactly when
/// its field is set.
pub open spec fn attachment_members(m: Message) -> Seq<(Seq<char>, JsonData)> {
    opt_attachments_member("Attachments"@, m.attachments) + opt_attachments_member(
        "Inline_attachments"@,
        m.inline_attachments,
    ) + vars_member(m.vars)
}

/// The template, id, event-payload and header members, each present
/// exactly when its field is set.
pub open spec fn extra_members(m: Message) -> Seq<(Seq<char>, JsonData)> {
    opt_u64_member("Mj-TemplateID"@, m.mj_template_id) + opt_bool_member(
        "Mj-TemplateLanguage"@,
        m.use_mj_template_language,
    ) + opt_str_member("Mj-CustomID"@, m.mj_custom_id) + opt_str_member(
        "Mj-EventPayload"@,
        m.mj_event_payload,
    ) + headers_member(m.headers)
}

/// The members of the JSON object a v3 message serializes to, in wire
/// order. A member whose field is unset is omitted entirely, never sent as
/// `null`: the API reads the presence of a member as a signal of its own.
pub open spec fn message_members(m: Message) -> Seq<(Seq<char>, JsonData)> {
    tocc_members(m.addressing) + core_members(m) + recipients_member(m.addressing)
        + attachment_members(m) + extra_members(m)
}

impl Message {
    /// Writes the `To`, `Cc` and `Bcc` members.
    fn write_tocc(&self, w: &mut JsonObjWriter)
        requires
            old(w).wf(),
        ensures
            final(w).wf(),
            final(w).members() == old(w).members() + tocc_members(self.addressing),
    {
        let ghost acc0 = old(w).members();
        match &self.addressing {
            AddressingMode::ToCcBcc { to, cc, bcc } => {
                let line = join_comma_separated(to);
                w.add_str("To", line.as_str());
                let ghost to_seg = seq![("To"@, JsonData::Str(joined_lines(to@)))];
                proof {
                    lemma_concat_single(acc0, ("To"@, JsonData::Str(joined_lines(to@))));
                }
                let ghost acc = acc0 + to_seg;
                if let Some(cc_rs) = cc {
                    let line = join_comma_separated(cc_rs);
                    w.add_str("Cc", line.as_str());
                }
                proof {
                    match cc {
                        Some(cc_rs) => lemma_concat_single(
                            acc,
                            ("Cc"@, JsonData::Str(joined_lines(cc_rs@))),
                        ),
                        None => lemma_concat_empty(acc),
                    }
                    assert(w.members() == acc + opt_lines_member("Cc"@, *cc));
                }
                let ghost acc = acc + opt_lines_member("Cc"@, *cc);
                if let Some(bcc_rs) = bcc {
                    let line = join_comma_separated(bcc_rs);
                    w.add_str("Bcc", line.as_str());
                }
                proof {
                    match bcc {
                        Some(bcc_rs) => lemma_concat_single(
                            acc,
                            ("Bcc"@, JsonData::Str(joined_lines(bcc_rs@))),
                        ),
                        None => lemma_concat_empty(acc),
                    }
                    assert(w.members() == acc + opt_lines_member("Bcc"@, *bcc));
                    lemma_concat_assoc(acc0, to_seg, opt_lines_member("Cc"@, *cc));
                    lemma_concat_assoc(
                        acc0,
                        to_seg + opt_lines_member("Cc"@, *cc),
                        opt_lines_member("Bcc"@, *bcc),
                    );
                    assert(w.members() == acc0 + tocc_members(self.addressing));
                }
            },
            _ => {
                proof {
                    lemma_concat_empty(acc0);
                    assert(w.members() == acc0 + tocc_members(self.addressing));
                }
            },
        }
    }

    /// Writes the sender and content members.
    fn write_core(&self, w: &mut JsonObjWriter)
        requires
            old(w).wf(),
        ensures
            final(w).wf(),
            final(w).members() == old(w).members() + core_members(*self),
    {
        let ghost acc0 = old(w).members();
        w.add_str("FromEmail", self.from_email.as_str());
        w.add_str("FromName", self.from_name.as_str());
        let ghost base = seq![
            ("FromEmail"@, JsonData::Str(self.from_email@)),
            ("FromName"@, JsonData::Str(self.from_name@)),
        ];
        proof {
            assert(w.members() =~= acc0 + base);
        }
        let ghost acc = acc0 + base;
        if let Some(s) = &self.subject {
            w.add_str("Subject", s.as_str());
        }
        proof {
            match &self.subject {
                Some(s) => lemma_concat_single(acc, ("Subject"@, JsonData::Str(s@))),
                None => lemma_concat_empty(acc),
            }
            assert(w.members() == acc + opt_str_member("Subject"@, self.subject));
        }
        let ghost acc = acc + opt_str_member("Subject"@, self.subject);
        if let Some(s) = &self.text_part {
            w.add_str("Text-part", s.as_str());
        }
        proof {
            match &self.text_part {
                Some(s) => lemma_concat_single(acc, ("Text-part"@, JsonData::Str(s@))),
                None => lemma_concat_empty(acc),
            }
            assert(w.members() == acc + opt_str_member("Text-part"@, self.text_part));
        }
        let ghost acc = acc + opt_str_member("Text-part"@, self.text_part);
        if let Some(s) = &self.html_part {
            w.add_str("Html-part", s.as_str());
        }
        proof {
            match &self.html_part {
                Some(s) => lemma_concat_single(acc, ("Html-part"@, JsonData::Str(s@))),
                None => lemma_concat_empty(acc),
            }
            assert(w.members() == acc + opt_str_member("Html-part"@, self.html_part));
            lemma_concat_assoc(acc0, base, opt_str_member("Subject"@, self.subject));
            lemma_concat_assoc(
                acc0,
                base + opt_str_member("Subject"@, self.subject),
                opt_str_member("Text-part"@, self.text_part),
            );
            lemma_concat_assoc(
                acc0,
                base + opt_str_member("Subject"@, self.subject) + opt_str_member(
                    "Text-part"@,
                    self.text_part,
                ),
                opt_str_member("Html-part"@, self.html_part),
            );
            assert(w.members() == acc0 + core_members(*self));
        }
    }

    /// Writes the `Recipients` member.
    fn write_recipients_field(&self, w: &mut JsonObjWriter)
        requires
            old(w).wf(),
        ensures
            final(w).wf(),
            final(w).members() == old(w).members() + recipients_member(self.addressing),
    {
        let ghost acc0 = old(w).members();
        if let AddressingMode::Recipients(rs) = &self.addressing {
            let rv = recipients_value(rs);
            w.add_value("Recipients", &rv);
        }
        proof {
            match &self.addressing {
                AddressingMode::Recipients(rs) => lemma_concat_single(
                    acc0,
                    ("Recipients"@, JsonData::Arr(recipients_data(rs@))),
                ),
                _ => lemma_concat_empty(acc0),
            }
            assert(w.members() == acc0 + recipients_member(self.addressing));
        }
    }

    /// Writes the attachment and template-variable members.
    fn write_attachment_fields(&self, w: &mut JsonObjWriter)
        requires
            old(w).wf(),
        ensures
            final(w).wf(),
            final(w).members() == old(w).members() + attachment_members(*self),
    {
        let ghost acc0 = old(w).members();
        if let Some(s) = &self.attachments {
            let av = attachments_value(s);
            w.add_value("Attachments", &av);
        }
        proof {
            match &self.attachments {
                Some(s) => lemma_concat_single(
                    acc0,
                    ("Attachments"@, JsonData::Arr(attachments_data(s@))),
                ),
                None => lemma_concat_empty(acc0),
            }
            assert(w.members() == acc0 + opt_attachments_member("Attachments"@, self.attachments));
        }
        let ghost acc = acc0 + opt_attachments_member("Attachments"@, self.attachments);
        if let Some(s) = &self.inline_attachments {
            let av = attachments_value(s);
            w.add_value("Inline_attachments", &av);
        }
        proof {
            match &self.inline_attachments {
                Some(s) => lemma_concat_single(
                    acc,
                    ("Inline_attachments"@, JsonData::Arr(attachments_data(s@))),
                ),
                None => lemma_concat_empty(acc),
            }
            assert(w.members() == acc + opt_attachments_member(
                "Inline_attachments"@,
                self.inline_attachments,
            ));
        }
        let ghost acc = acc + opt_attachments_member(
            "Inline_attachments"@,
            self.inline_attachments,
        );
        if let Some(vs) = &self.vars {
            w.add_object("Vars", vs);
        }
        proof {
            match &self.vars {
                Some(vs) => lemma_concat_single(
                    acc,
                    ("Vars"@, JsonData::Obj(member_data_seq(vs@))),
                ),
                None => lemma_concat_empty(acc),
            }
            assert(w.members() == acc + vars_member(self.vars));
            lemma_concat_assoc(
                acc0,
                opt_attachments_member("Attachments"@, self.attachments),
                opt_attachments_member("Inline_attachments"@, self.inline_attachments),
            );
            lemma_concat_assoc(
                acc0,
                opt_attachments_member("Attachments"@, self.attachments)
                    + opt_attachments_member("Inline_attachments"@, self.inline_attachments),
                vars_member(self.vars),
            );
            assert(w.members() == acc0 + attachment_members(*self));
        }
    }

    /// Writes the template, id, event-payload and header members.
    fn write_extra_fields(&self, w: &mut JsonObjWriter)
        requires
            old(w).wf(),
        ensures
            final(w).wf(),
            final(w).members() == old(w).members() + extra_members(*self),
    {
        let ghost acc0 = old(w).members();
        if let Some(id) = &self.mj_template_id {
            w.add_u64("Mj-TemplateID", *id);
        }
        proof {
            match &self.mj_template_id {
                Some(n) => lemma_concat_single(acc0, ("Mj-TemplateID"@, JsonData::Int(*n as int))),
                None => lemma_concat_empty(acc0),
            }
            assert(w.members() == acc0 + opt_u64_member("Mj-TemplateID"@, self.mj_template_id));
        }
        let ghost acc = acc0 + opt_u64_member("Mj-TemplateID"@, self.mj_template_id);
        if let Some(b) = &self.use_mj_template_language {
            w.add_bool("Mj-TemplateLanguage", *b);
        }
        proof {
            match &self.use_mj_template_language {
                Some(b) => lemma_concat_single(acc, ("Mj-TemplateLanguage"@, JsonData::Bool(*b))),
                None => lemma_concat_empty(acc),
            }
            assert(w.members() == acc + opt_bool_member(
                "Mj-TemplateLanguage"@,
                self.use_mj_template_language,
            ));
        }
        let ghost acc = acc + opt_bool_member(
            "Mj-TemplateLanguage"@,
            self.use_mj_template_language,
        );
        if let Some(s) = &self.mj_custom_id {
            w.add_str("Mj-CustomID", s.as_str());
        }
        proof {
            match &self.mj_custom_id {
                Some(s) => lemma_concat_single(acc, ("Mj-CustomID"@, JsonData::Str(s@))),
                None => lemma_concat_empty(acc),
            }
            assert(w.members() == acc + opt_str_member("Mj-CustomID"@, self.mj_custom_id));
        }
        let ghost acc = acc + opt_str_member("Mj-CustomID"@, self.mj_custom_id);
        if let Some(s) = &self.mj_event_payload {
            w.add_str("Mj-EventPayload", s.as_str());
        }
        proof {
            match &self.mj_event_payload {
                Some(s) => lemma_concat_single(acc, ("Mj-EventPayload"@, JsonData::Str(s@))),
                None => lemma_concat_empty(acc),
            }
            assert(w.members() == acc + opt_str_member("Mj-EventPayload"@, self.mj_event_payload));
        }
        let ghost acc = acc + opt_str_member("Mj-EventPayload"@, self.mj_event_payload);
        if let Some(h) = &self.headers {
            let hm = string_map_object(h);
            w.add_object("Headers", &hm);
        }
        proof {
            match &self.headers {
                Some(h) => lemma_concat_single(
                    acc,
                    ("Headers"@, JsonData::Obj(string_members(h@))),
                ),
                None => lemma_concat_empty(acc),
            }
            assert(w.members() == acc + headers_member(self.headers));
            let ghost s1 = opt_u64_member("Mj-TemplateID"@, self.mj_template_id);
            let ghost s2 = opt_bool_member("Mj-TemplateLanguage"@, self.use_mj_template_language);
            let ghost s3 = opt_str_member("Mj-CustomID"@, self.mj_custom_id);
            let ghost s4 = opt_str_member("Mj-EventPayload"@, self.mj_event_payload);
            let ghost s5 = headers_member(self.headers);
            lemma_concat_assoc(acc0, s1, s2);
            lemma_concat_assoc(acc0, s1 + s2, s3);
            lemma_concat_assoc(acc0, s1 + s2 + s3, s4);
            lemma_concat_assoc(acc0, s1 + s2 + s3 + s4, s5);
            assert(w.members() == acc0 + extra_members(*self));
        }
    }
}

/// A key other than `To`, `Cc` and `Bcc` is not among the addressing
/// members.
proof fn lemma_tocc_lookup_absent(a: AddressingMode, key: Seq<char>)
    requires
        key != "To"@,
        key != "Cc"@,
        key != "Bcc"@,
    ensures
        obj_lookup(tocc_members(a), key) is None,
{
    match a {
        AddressingMode::ToCcBcc { to, cc, bcc } => {
            let s1 = seq![("To"@, JsonData::Str(joined_lines(to@)))];
            let s2 = opt_lines_member("Cc"@, cc);
            let s3 = opt_lines_member("Bcc"@, bcc);
            lemma_obj_lookup_single("To"@, JsonData::Str(joined_lines(to@)), key);
            match cc {
                Some(rs) => lemma_obj_lookup_single("Cc"@, JsonData::Str(joined_lines(rs@)), key),
                None => {},
            }
            match bcc {
                Some(rs) => lemma_obj_lookup_single("Bcc"@, JsonData::Str(joined_lines(rs@)), key),
                None => {},
            }
            lemma_obj_lookup_concat(s1, s2, key);
            lemma_obj_lookup_concat(s1 + s2, s3, key);
        },
        _ => {},
    }
}

/// Among the sender and content members, `Subject` is present with the
/// subject text exactly when the subject is set.
proof fn lemma_core_subject_lookup(m: Message)
    ensures
        obj_lookup(core_members(m), "Subject"@) == (match m.subject {
            Some(s) => Some(JsonData::Str(s@)),
            None => None::<JsonData>,
        }),
{
    reveal_strlit("FromEmail");
    reveal_strlit("FromName");
    reveal_strlit("Subject");
    reveal_strlit("Text-part");
    reveal_strlit("Html-part");
    assert("FromEmail"@.len() == 9);
    assert("FromName"@.len() == 8);
    assert("Subject"@.len() == 7);
    assert("Text-part"@.len() == 9);
    assert("Html-part"@.len() == 9);
    let key = "Subject"@;
    let fe = ("FromEmail"@, JsonData::Str(m.from_email@));
    let fnm = ("FromName"@, JsonData::Str(m.from_name@));
    let base = seq![fe, fnm];
    let su = opt_str_member("Subject"@, m.subject);
    let tx = opt_str_member("Text-part"@, m.text_part);
    let ht = opt_str_member("Html-part"@, m.html_part);
    assert(base =~= seq![fe] + seq![fnm]);
    lemma_obj_lookup_single(fe.0, fe.1, key);
    lemma_obj_lookup_single(fnm.0, fnm.1, key);
    lemma_obj_lookup_concat(seq![fe], seq![fnm], key);
    match m.subject {
        Some(s) => lemma_obj_lookup_single("Subject"@, JsonData::Str(s@), key),
        None => {},
    }
    match m.text_part {
        Some(s) => lemma_obj_lookup_single("Text-part"@, JsonData::Str(s@), key),
        None => {},
    }
    match m.html_part {
        Some(s) => lemma_obj_lookup_single("Html-part"@, JsonData::Str(s@), key),
        None => {},
    }
    lemma_obj_lookup_concat(base, su, key);
    lemma_obj_lookup_concat(base + su, tx, key);
    lemma_obj_lookup_concat(base + su + tx, ht, key);
}

/// A key other than `Recipients` is not among the recipients members.
proof fn lemma_recipients_lookup_absent(a: AddressingMode, key: Seq<char>)
    requires
        key != "Recipients"@,
    ensures
        obj_lookup(recipients_member(a), key) is None,
{
    match a {
        AddressingMode::Recipients(rs) => {
            lemma_obj_lookup_single("Recipients"@, JsonData::Arr(recipients_data(rs@)), key);
        },
        _ => {},
    }
}

/// A key other than `Attachments`, `Inline_attachments` and `Vars` is not
/// among the attachment members.
proof fn lemma_attachment_members_lookup_absent(m: Message, key: Seq<char>)
    requires
        key != "Attachments"@,
        key != "Inline_attachments"@,
        key != "Vars"@,
    ensures
        obj_lookup(attachment_members(m), key) is None,
{
    let s1 = opt_attachments_member("Attachments"@, m.attachments);
    let s2 = opt_attachments_member("Inline_attachments"@, m.inline_attachments);
    let s3 = vars_member(m.vars);
    match m.attachments {
        Some(s) => lemma_obj_lookup_single(
            "Attachments"@,
            JsonData::Arr(attachments_data(s@)),
            key,
        ),
        None => {},
    }
    match m.inline_attachments {
        Some(s) => lemma_obj_lookup_single(
            "Inline_attachments"@,
            JsonData::Arr(attachments_data(s@)),
            key,
        ),
        None => {},
    }
    match m.vars {
        Some(vs) => lemma_obj_lookup_single("Vars"@, JsonData::Obj(member_data_seq(vs@)), key),
        None => {},
    }
    lemma_obj_lookup_concat(s1, s2, key);
    lemma_obj_lookup_concat(s1 + s2, s3, key);
}

/// A key other than the template, id, event-payload and header keys is not
/// among the extra members.
proof fn lemma_extra_members_lookup_absent(m: Message, key: Seq<char>)
    requires
        key != "Mj-TemplateID"@,
        key != "Mj-TemplateLanguage"@,
        key != "Mj-CustomID"@,
        key != "Mj-EventPayload"@,
        key != "Headers"@,
    ensures
        obj_lookup(extra_members(m), key) is None,
{
    let s1 = opt_u64_member("Mj-TemplateID"@, m.mj_template_id);
    let s2 = opt_bool_member("Mj-TemplateLanguage"@, m.use_mj_template_language);
    let s3 = opt_str_member("Mj-CustomID"@, m.mj_custom_id);
    let s4 = opt_str_member("Mj-EventPayload"@, m.mj_event_payload);
    let s5 = headers_member(m.headers);
    match m.mj_template_id {
        Some(n) => lemma_obj_lookup_single("Mj-TemplateID"@, JsonData::Int(n as int), key),
        None => {},
    }
    match m.use_mj_template_language {
        Some(b) => lemma_obj_lookup_single("Mj-TemplateLanguage"@, JsonData::Bool(b), key),
        None => {},
    }
    match m.mj_custom_id {
        Some(s) => lemma_obj_lookup_single("Mj-CustomID"@, JsonData::Str(s@), key),
        None => {},
    }
    match m.mj_event_payload {
        Some(s) => lemma_obj_lookup_single("Mj-EventPayload"@, JsonData::Str(s@), key),
        None => {},
    }
    match m.headers {
        Some(h) => lemma_obj_lookup_single("Headers"@, JsonData::Obj(string_members(h@)), key),
        None => {},
    }
    lemma_obj_lookup_concat(s1, s2, key);
    lemma_obj_lookup_concat(s1 + s2, s3, key);
    lemma_obj_lookup_concat(s1 + s2 + s3, s4, key);
    lemma_obj_lookup_concat(s1 + s2 + s3 + s4, s5, key);
}

/// A message with an unset subject serializes without a `Subject` member,
/// never as `"Subject": null`; one with a set subject carries exactly one
/// `Subject` member, holding the subject text.
pub proof fn lemma_subject_presence(m: Message)
    ensures
        (m.subject is None) ==> !obj_has_key(message_members(m), "Subject"@),
        m.subject matches Some(s) ==> obj_lookup(message_members(m), "Subject"@) == Some(
            JsonData::Str(s@),
        ),
{
    reveal_strlit("To");
    reveal_strlit("Cc");
    reveal_strlit("Bcc");
    reveal_strlit("Subject");
    reveal_strlit("Recipients");
    reveal_strlit("Attachments");
    reveal_strlit("Inline_attachments");
    reveal_strlit("Vars");
    reveal_strlit("Mj-TemplateID");
    reveal_strlit("Mj-TemplateLanguage");
    reveal_strlit("Mj-CustomID");
    reveal_strlit("Mj-EventPayload");
    reveal_strlit("Headers");
    assert("To"@.len() == 2);
    assert("Cc"@.len() == 2);
    assert("Bcc"@.len() == 3);
    assert("Subject"@.len() == 7);
    assert("Recipients"@.len() == 10);
    assert("Attachments"@.len() == 11);
    assert("Inline_attachments"@.len() == 18);
    assert("Vars"@.len() == 4);
    assert("Mj-TemplateID"@.len() == 13);
    assert("Mj-TemplateLanguage"@.len() == 19);
    assert("Mj-CustomID"@.len() == 11);
    assert("Mj-EventPayload"@.len() == 15);
    assert("Headers"@.len() == 7);
    assert("Headers"@[0] == 'H' && "Subject"@[0] == 'S');
    let key = "Subject"@;
    let a = tocc_members(m.addressing);
    let b = core_members(m);
    let c = recipients_member(m.addressing);
    let d = attachment_members(m);
    let e = extra_members(m);
    lemma_tocc_lookup_absent(m.addressing, key);
    lemma_core_subject_lookup(m);
    lemma_recipients_lookup_absent(m.addressing, key);
    lemma_attachment_members_lookup_absent(m, key);
    lemma_extra_members_lookup_absent(m, key);
    lemma_obj_lookup_concat(a, b, key);
    lemma_obj_lookup_concat(a + b, c, key);
    lemma_obj_lookup_concat(a + b + c, d, key);
    lemma_obj_lookup_concat(a + b + c + d, e, key);
}

impl Payload for Message {
    /// The JSON object this message serializes to.
    open spec fn json_data(&self) -> JsonData {
        JsonData::Obj(message_members(*self))
    }

    fn to_json(&self) -> (r: String) {
        let mut w = JsonObjWriter::new();
        self.write_tocc(&mut w);
        proof {
            assert(Seq::<(Seq<char>, JsonData)>::empty() + tocc_members(self.addressing)
                =~= tocc_members(self.addressing));
        }
        self.write_core(&mut w);
        self.write_recipients_field(&mut w);
        self.write_attachment_fields(&mut w);
        self.write_extra_fields(&mut w);
        proof {
            assert(w.members() == message_members(*self));
        }
        w.finish()
    }
}

/// The older Send API v3 email shape.
///
/// Recipients listed in `To` receive a common message showing every other
/// recipient; the addresses are presented as SMTP-header strings, not as
/// arrays. Every wire field is always sent, with an empty string standing
/// in for an unset one.
pub struct Email {
    /// The verified sender email address.
    pub from_email: String,
    /// The name of the sender.
    pub from_name: String,
    /// The subject of the email.
    pub subject: Option<String>,
    /// The raw text content of the email.
    pub text_part: String,
    /// The HTML content of the email.
    pub html_part: Option<String>,
    /// The recipients of the common message.
    pub to: Vec<Recipient>,
    /// The carbon copy recipients.
    pub cc: Option<Vec<Recipient>>,
    /// The blind carbon copy recipients.
    pub bcc: Option<Vec<Recipient>>,
}

/// The text of an optional field, empty when unset.
pub open spec fn str_or_empty(v: Option<String>) -> Seq<char> {
    match v {
        Some(s) => s@,
        None => Seq::empty(),
    }
}

/// The joined header lines of an optional recipient list, empty when
/// unset.
pub open spec fn lines_or_empty(v: Option<Vec<Recipient>>) -> Seq<char> {
    match v {
        Some(rs) => joined_lines(rs@),
        None => Seq::empty(),
    }
}

/// The members of the JSON object an email serializes to: all eight wire
/// fields, always present.
pub open spec fn email_members(e: Email) -> Seq<(Seq<char>, JsonData)> {
    seq![
        ("FromEmail"@, JsonData::Str(e.from_email@)),
        ("FromName"@, JsonData::Str(e.from_name@)),
        ("Subject"@, JsonData::Str(str_or_empty(e.subject))),
        ("Text-part"@, JsonData::Str(e.text_part@)),
        ("Html-part"@, JsonData::Str(str_or_empty(e.html_part))),
        ("To"@, JsonData::Str(joined_lines(e.to@))),
        ("Cc"@, JsonData::Str(lines_or_empty(e.cc))),
        ("Bcc"@, JsonData::Str(lines_or_empty(e.bcc))),
    ]
}

impl Email {
    /// Creates an email from all of its parts.
    pub fn new(
        from_email: &str,
        from_name: &str,
        subject: Option<String>,
        text_part: &str,
        html_part: Option<String>,
        to: Vec<Recipient>,
        cc: Option<Vec<Recipient>>,
        bcc: Option<Vec<Recipient>>,
    ) -> (e: Self)
        ensures
            e.from_email@ == from_email@,
            e.from_name@ == from_name@,
            e.subject == subject,
            e.text_part@ == text_part@,
            e.html_part == html_part,
            e.to == to,
            e.cc == cc,
            e.bcc == bcc,
    {
        Self {
            from_email: from_email.to_owned(),
            from_name: from_name.to_owned(),
            subject,
            text_part: text_part.to_owned(),
            html_part,
            to,
            cc,
            bcc,
        }
    }
}

impl Payload for Email {
    /// The JSON object this email serializes to.
    open spec fn json_data(&self) -> JsonData {
        JsonData::Obj(email_members(*self))
    }

    fn to_json(&self) -> (r: String) {
        proof {
            reveal_strlit("");
        }
        let mut w = JsonObjWriter::new();
        w.add_str("FromEmail", self.from_email.as_str());
        w.add_str("FromName", self.from_name.as_str());
        match &self.subject {
            Some(s) => w.add_str("Subject", s.as_str()),
            None => w.add_str("Subject", ""),
        }
        w.add_str("Text-part", self.text_part.as_str());
        match &self.html_part {
            Some(s) => w.add_str("Html-part", s.as_str()),
            None => w.add_str("Html-part", ""),
        }
        let to_line = join_comma_separated(&self.to);
        w.add_str("To", to_line.as_str());
        match &self.cc {
            Some(rs) => {
                let line = join_comma_separated(rs);
                w.add_str("Cc", line.as_str());
            },
            None => w.add_str("Cc", ""),
        }
        match &self.bcc {
            Some(rs) => {
                let line = join_comma_separated(rs);
                w.add_str("Bcc", line.as_str());
            },
            None => w.add_str("Bcc", ""),
        }
        proof {
            assert(""@ =~= Seq::<char>::empty());
            assert(w.members() =~= email_members(*self));
        }
        w.finish()
    }
}

} // verus!
