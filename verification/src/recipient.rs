//! Email recipients and the legacy comma-separated wire form.

use vstd::prelude::*;
use vstd::string::StrSliceExecFns;
use vstd::string::StringExecFns;

use crate::json::JsonData;
use crate::json::JsonValue;
use crate::json::arr_new;
use crate::json::arr_push;
use crate::json::jdata;
use crate::json::jdata_seq;
use crate::json::member_data_seq;
use crate::json::obj_new;
use crate::json::obj_push_str;
use crate::json::push_char;

verus! {

/// An email recipient: an address and the (possibly empty) display name of
/// its owner.
pub struct Recipient {
    pub email: String,
    pub name: String,
}

/// The header-style line for one recipient: `"Name" <email>` when the name
/// is non-empty, `<email>` otherwise.
pub open spec fn recipient_line(email: Seq<char>, name: Seq<char>) -> Seq<char> {
    if name.len() > 0 {
        seq!['"'] + name + seq!['"', ' ', '<'] + email + seq!['>']
    } else {
        seq!['<'] + email + seq!['>']
    }
}

/// The comma-joined header lines of a list of recipients.
pub open spec fn joined_lines(rs: Seq<Recipient>) -> Seq<char>
    decreases rs,
{
    if rs.len() == 0 {
        Seq::empty()
    } else if rs.len() == 1 {
        recipient_line(rs[0].email@, rs[0].name@)
    } else {
        recipient_line(rs[0].email@, rs[0].name@) + seq![','] + joined_lines(rs.drop_first())
    }
}

/// One more recipient at the end extends the joined lines by a comma (when
/// it is not the first) and its own line.
pub proof fn lemma_joined_lines_snoc(rs: Seq<Recipient>, r: Recipient)
    ensures
        joined_lines(rs.push(r)) == if rs.len() == 0 {
            recipient_line(r.email@, r.name@)
        } else {
            joined_lines(rs) + seq![','] + recipient_line(r.email@, r.name@)
        },
    decreases rs.len(),
{
    let p = rs.push(r);
    if rs.len() == 0 {
        assert(p.len() == 1);
        assert(p[0] == r);
    } else {
        assert(p[0] == rs[0]);
        assert(p.drop_first() =~= rs.drop_first().push(r));
        lemma_joined_lines_snoc(rs.drop_first(), r);
        assert(joined_lines(p) =~= joined_lines(rs) + seq![','] + recipient_line(r.email@, r.name@));
    }
}

/// Splitting on commas, with the segment under construction carried along.
pub open spec fn split_commas_from(s: Seq<char>, cur: Seq<char>) -> Seq<Seq<char>>
    decreases s.len(),
{
    if s.len() == 0 {
        seq![cur]
    } else if s[0] == ',' {
        seq![cur] + split_commas_from(s.drop_first(), Seq::empty())
    } else {
        split_commas_from(s.drop_first(), cur.push(s[0]))
    }
}

/// The comma-separated segments of `s`, in order. An empty text has one
/// empty segment, as `str::split` has it.
pub open spec fn split_commas(s: Seq<char>) -> Seq<Seq<char>> {
    split_commas_from(s, Seq::empty())
}

/// The addresses of a list of recipients, in order.
pub open spec fn emails_of(rs: Seq<Recipient>) -> Seq<Seq<char>> {
    rs.map_values(|r: Recipient| r.email@)
}

impl Recipient {
    /// Creates a recipient with no display name.
    pub fn new(email: &str) -> (r: Self)
        ensures
            r.email@ == email@,
            r.name@ == Seq::<char>::empty(),
    {
        Self { email: email.to_owned(), name: String::new() }
    }

    /// Creates a recipient with an address and a display name.
    pub fn with_name(email: &str, name: &str) -> (r: Self)
        ensures
            r.email@ == email@,
            r.name@ == name@,
    {
        Self { email: email.to_owned(), name: name.to_owned() }
    }

    /// Splits a comma-separated list of addresses into recipients without
    /// names, one per segment, in input order.
    ///
    /// This does not parse `"Name" <email>` lines back apart; the output of
    /// [`Recipient::as_comma_separated`] does not round-trip through it.
    pub fn from_comma_separated(recipients: &str) -> (v: Vec<Self>)
        ensures
            emails_of(v@) == split_commas(recipients@),
            forall|i: int| 0 <= i < v@.len() ==> v@[i].name@ == Seq::<char>::empty(),
    {
        let n = recipients.unicode_len();
        let mut v: Vec<Recipient> = Vec::new();
        let mut cur = String::new();
        let mut i: usize = 0;
        proof {
            assert(recipients@.skip(0) =~= recipients@);
            assert(emails_of(v@) =~= Seq::<Seq<char>>::empty());
            assert(emails_of(v@) + split_commas_from(recipients@, Seq::empty())
                =~= split_commas_from(recipients@, Seq::empty()));
        }
        while i < n
            invariant
                n == recipients@.len(),
                i <= n,
                split_commas(recipients@) == emails_of(v@) + split_commas_from(
                    recipients@.skip(i as int),
                    cur@,
                ),
                forall|j: int| 0 <= j < v@.len() ==> v@[j].name@ == Seq::<char>::empty(),
            decreases n - i,
        {
            let ghost rest = recipients@.skip(i as int);
            proof {
                assert(rest.len() > 0);
                assert(rest[0] == recipients@[i as int]);
                assert(rest.drop_first() =~= recipients@.skip(i + 1));
            }
            let c = recipients.get_char(i);
            if c == ',' {
                let ghost old_v = v@;
                let ghost cur_view = cur@;
                v.push(Recipient { email: cur, name: String::new() });
                cur = String::new();
                proof {
                    assert(emails_of(v@) =~= emails_of(old_v).push(cur_view));
                    assert(emails_of(old_v).push(cur_view) + split_commas_from(
                        recipients@.skip(i + 1),
                        Seq::empty(),
                    ) =~= emails_of(old_v) + (seq![cur_view] + split_commas_from(
                        recipients@.skip(i + 1),
                        Seq::empty(),
                    )));
                }
            } else {
                push_char(&mut cur, c);
            }
            i = i + 1;
        }
        let ghost old_v = v@;
        let ghost cur_view = cur@;
        v.push(Recipient { email: cur, name: String::new() });
        proof {
            assert(recipients@.skip(n as int) =~= Seq::<char>::empty());
            assert(emails_of(v@) =~= emails_of(old_v).push(cur_view));
            assert(emails_of(old_v).push(cur_view) =~= emails_of(old_v) + seq![cur_view]);
        }
        v
    }

    /// Formats the recipient as a header line: `"Name" <email>` when the
    /// name is non-empty, `<email>` otherwise.
    pub fn as_comma_separated(&self) -> (r: String)
        ensures
            r@ == recipient_line(self.email@, self.name@),
    {
        let mut out = String::new();
        if !self.name.as_str().is_empty() {
            push_char(&mut out, '"');
            out.append(self.name.as_str());
            push_char(&mut out, '"');
            push_char(&mut out, ' ');
        }
        push_char(&mut out, '<');
        out.append(self.email.as_str());
        push_char(&mut out, '>');
        proof {
            assert(out@ =~= recipient_line(self.email@, self.name@));
        }
        out
    }
}

/// The JSON object a recipient serializes to, in the array-valued wire
/// forms (`Recipients` in v3, `From` and `To` in v3.1).
pub open spec fn recipient_data(r: Recipient) -> JsonData {
    JsonData::Obj(
        seq![("Email"@, JsonData::Str(r.email@)), ("Name"@, JsonData::Str(r.name@))],
    )
}

/// The JSON objects of a list of recipients, in order.
pub open spec fn recipients_data(rs: Seq<Recipient>) -> Seq<JsonData> {
    rs.map_values(|r: Recipient| recipient_data(r))
}

/// Builds the JSON object for one recipient.
pub fn recipient_value(r: &Recipient) -> (v: JsonValue)
    ensures
        jdata(v) == recipient_data(*r),
{
    let mut m = obj_new();
    obj_push_str(&mut m, "Email", r.email.as_str());
    obj_push_str(&mut m, "Name", r.name.as_str());
    proof {
        assert(member_data_seq(m@) =~= seq![
            ("Email"@, JsonData::Str(r.email@)),
            ("Name"@, JsonData::Str(r.name@)),
        ]);
    }
    JsonValue::Object(m)
}

/// Builds the JSON array of recipient objects for `rs`.
pub fn recipients_value(rs: &Vec<Recipient>) -> (v: JsonValue)
    ensures
        jdata(v) == JsonData::Arr(recipients_data(rs@)),
{
    let mut a = arr_new();
    let n = rs.len();
    let mut i: usize = 0;
    while i < n
        invariant
            n == rs@.len(),
            i <= n,
            jdata_seq(a@) == recipients_data(rs@.take(i as int)),
        decreases n - i,
    {
        let rv = recipient_value(&rs[i]);
        arr_push(&mut a, rv);
        proof {
            assert(recipients_data(rs@.take(i + 1)) =~= recipients_data(rs@.take(i as int)).push(
                recipient_data(rs@[i as int]),
            ));
        }
        i = i + 1;
    }
    proof {
        assert(rs@.take(n as int) =~= rs@);
    }
    JsonValue::Array(a)
}

/// Joins the header lines of `rs` with commas, the v3 wire form of the
/// `To`, `Cc` and `Bcc` fields.
pub fn join_comma_separated(rs: &Vec<Recipient>) -> (r: String)
    ensures
        r@ == joined_lines(rs@),
{
    let mut out = String::new();
    let n = rs.len();
    let mut i: usize = 0;
    while i < n
        invariant
            n == rs@.len(),
            i <= n,
            out@ == joined_lines(rs@.take(i as int)),
        decreases n - i,
    {
        if i > 0 {
            push_char(&mut out, ',');
        }
        let line = rs[i].as_comma_separated();
        out.append(line.as_str());
        proof {
            let ghost t1 = rs@.take(i + 1);
            assert(t1 =~= rs@.take(i as int).push(rs@[i as int]));
            lemma_joined_lines_snoc(rs@.take(i as int), rs@[i as int]);
            assert(rs@.take(i as int).len() == 0 <==> i == 0);
            assert(out@ =~= joined_lines(rs@.take(i + 1)));
        }
        i = i + 1;
    }
    proof {
        assert(rs@.take(n as int) =~= rs@);
    }
    out
}

} // verus!
