//! A small JSON document model.
//!
//! Every payload this library sends is first described as a [`JsonData`]
//! document at the specification level, built as a [`JsonValue`] at run time,
//! and then rendered to the exact JSON text by [`render_value`]. The renderer
//! is verified against the specification-level [`render`] function, so the
//! contract of every `to_json` method pins down the full output text.

use vstd::prelude::*;
use vstd::string::StrSliceExecFns;
use vstd::string::StringExecFns;

verus! {

/// A JSON document at the specification level.
///
/// Object members are kept as an ordered sequence of key/value pairs, which
/// is also the order in which they are rendered.
pub ghost enum JsonData {
    Null,
    Bool(bool),
    /// An integer number. Every number this library renders is one.
    Int(int),
    /// A number that is not an integer a machine integer can hold. Parsed
    /// documents can contain one; the library never renders one, so its
    /// value is not modeled.
    Float,
    Str(Seq<char>),
    Arr(Seq<JsonData>),
    Obj(Seq<(Seq<char>, JsonData)>),
}

/// The hexadecimal digit character for a value below 16.
pub open spec fn hex_digit(d: int) -> char {
    if d == 0 { '0' } else if d == 1 { '1' } else if d == 2 { '2' }
    else if d == 3 { '3' } else if d == 4 { '4' } else if d == 5 { '5' }
    else if d == 6 { '6' } else if d == 7 { '7' } else if d == 8 { '8' }
    else if d == 9 { '9' } else if d == 10 { 'a' } else if d == 11 { 'b' }
    else if d == 12 { 'c' } else if d == 13 { 'd' } else if d == 14 { 'e' }
    else { 'f' }
}

/// The decimal digit character for a value below 10.
pub open spec fn dec_digit(d: int) -> char {
    hex_digit(if 0 <= d < 10 { d } else { 0 })
}

/// Decimal rendering of a natural number, most significant digit first.
pub open spec fn dec_str(n: nat) -> Seq<char>
    decreases n,
{
    if n < 10 {
        seq![dec_digit(n as int)]
    } else {
        dec_str(n / 10).push(dec_digit((n % 10) as int))
    }
}

/// How one character appears inside a JSON string literal.
///
/// The quote and the backslash are escaped, control characters use the
/// short escapes where JSON has them and `\u00..` otherwise; every other
/// character stands for itself.
pub open spec fn escape_char(c: char) -> Seq<char> {
    if c == '"' {
        seq!['\\', '"']
    } else if c == '\\' {
        seq!['\\', '\\']
    } else if c == '\n' {
        seq!['\\', 'n']
    } else if c == '\r' {
        seq!['\\', 'r']
    } else if c == '\t' {
        seq!['\\', 't']
    } else if (c as int) < 0x20 {
        seq!['\\', 'u', '0', '0', hex_digit(c as int / 16), hex_digit(c as int % 16)]
    } else {
        seq![c]
    }
}

/// The body of a JSON string literal for the text `s` (without the quotes).
pub open spec fn escape_string(s: Seq<char>) -> Seq<char>
    decreases s.len(),
{
    if s.len() == 0 {
        Seq::empty()
    } else {
        escape_char(s[0]) + escape_string(s.drop_first())
    }
}

/// The exact text a JSON document renders to: no added whitespace, object
/// members in sequence order.
pub open spec fn render(d: JsonData) -> Seq<char>
    decreases d,
{
    match d {
        JsonData::Null => "null"@,
        JsonData::Bool(b) => if b { "true"@ } else { "false"@ },
        JsonData::Int(n) => if n >= 0 { dec_str(n as nat) } else { seq!['-'] + dec_str((-n) as nat) },
        JsonData::Float => Seq::empty(),
        JsonData::Str(s) => seq!['"'] + escape_string(s) + seq!['"'],
        JsonData::Arr(items) => seq!['['] + render_elements(items) + seq![']'],
        JsonData::Obj(members) => seq!['{'] + render_members(members) + seq!['}'],
    }
}

/// The comma-separated rendering of the elements of a JSON array.
pub open spec fn render_elements(items: Seq<JsonData>) -> Seq<char>
    decreases items,
{
    if items.len() == 0 {
        Seq::empty()
    } else if items.len() == 1 {
        render(items[0])
    } else {
        render(items[0]) + seq![','] + render_elements(items.drop_first())
    }
}

/// The comma-separated rendering of the members of a JSON object.
pub open spec fn render_members(members: Seq<(Seq<char>, JsonData)>) -> Seq<char>
    decreases members,
{
    if members.len() == 0 {
        Seq::empty()
    } else {
        let head = seq!['"'] + escape_string(members[0].0) + seq!['"', ':'] + render(members[0].1);
        if members.len() == 1 {
            head
        } else {
            head + seq![','] + render_members(members.drop_first())
        }
    }
}

/// Relies on `String::push`: appends the character to the end of the string.
#[verifier::external_body]
pub fn push_char(s: &mut String, c: char)
    ensures
        final(s)@ == old(s)@.push(c),
{
    s.push(c);
}

/// The decimal digit character for a value below 10, at run time.
fn dec_digit_char(d: u64) -> (c: char)
    requires
        d < 10,
    ensures
        c == dec_digit(d as int),
{
    if d == 0 { '0' } else if d == 1 { '1' } else if d == 2 { '2' }
    else if d == 3 { '3' } else if d == 4 { '4' } else if d == 5 { '5' }
    else if d == 6 { '6' } else if d == 7 { '7' } else if d == 8 { '8' }
    else { '9' }
}

/// The hexadecimal digit character for a value below 16, at run time.
fn hex_digit_char(d: u32) -> (c: char)
    requires
        d < 16,
    ensures
        c == hex_digit(d as int),
{
    if d == 0 { '0' } else if d == 1 { '1' } else if d == 2 { '2' }
    else if d == 3 { '3' } else if d == 4 { '4' } else if d == 5 { '5' }
    else if d == 6 { '6' } else if d == 7 { '7' } else if d == 8 { '8' }
    else if d == 9 { '9' } else if d == 10 { 'a' } else if d == 11 { 'b' }
    else if d == 12 { 'c' } else if d == 13 { 'd' } else if d == 14 { 'e' }
    else { 'f' }
}

/// Appends the decimal rendering of `n` to `out`.
pub fn append_u64(out: &mut String, n: u64)
    ensures
        final(out)@ == old(out)@ + dec_str(n as nat),
    decreases n,
{
    if n < 10 {
        push_char(out, dec_digit_char(n));
    } else {
        append_u64(out, n / 10);
        push_char(out, dec_digit_char(n % 10));
    }
}

/// Escaping a concatenation escapes the parts one after the other.
pub proof fn lemma_escape_concat(s: Seq<char>, t: Seq<char>)
    ensures
        escape_string(s + t) == escape_string(s) + escape_string(t),
    decreases s.len(),
{
    if s.len() == 0 {
        assert(s + t =~= t);
        assert(escape_string(s) + escape_string(t) =~= escape_string(t));
    } else {
        assert((s + t).drop_first() =~= s.drop_first() + t);
        lemma_escape_concat(s.drop_first(), t);
        assert(escape_string(s + t) =~= escape_string(s) + escape_string(t));
    }
}

/// Appends the escaped form of `s` (without surrounding quotes) to `out`.
pub fn append_escaped(out: &mut String, s: &str)
    ensures
        final(out)@ == old(out)@ + escape_string(s@),
{
    let n = s.unicode_len();
    let mut i: usize = 0;
    while i < n
        invariant
            n == s@.len(),
            i <= n,
            out@ == old(out)@ + escape_string(s@.take(i as int)),
        decreases n - i,
    {
        let c = s.get_char(i);
        if c == '"' {
            push_char(out, '\\');
            push_char(out, '"');
        } else if c == '\\' {
            push_char(out, '\\');
            push_char(out, '\\');
        } else if c == '\n' {
            push_char(out, '\\');
            push_char(out, 'n');
        } else if c == '\r' {
            push_char(out, '\\');
            push_char(out, 'r');
        } else if c == '\t' {
            push_char(out, '\\');
            push_char(out, 't');
        } else if (c as u32) < 0x20 {
            push_char(out, '\\');
            push_char(out, 'u');
            push_char(out, '0');
            push_char(out, '0');
            push_char(out, hex_digit_char((c as u32) / 16));
            push_char(out, hex_digit_char((c as u32) % 16));
        } else {
            push_char(out, c);
        }
        proof {
            let ghost cc = s@[i as int];
            assert(s@.take(i + 1) =~= s@.take(i as int) + seq![cc]);
            assert(seq![cc].drop_first() =~= Seq::<char>::empty());
            assert(seq![cc][0] == cc);
            assert(escape_string(seq![cc]) == escape_char(cc) + escape_string(Seq::<char>::empty()));
            assert(escape_char(cc) + Seq::<char>::empty() =~= escape_char(cc));
            lemma_escape_concat(s@.take(i as int), seq![cc]);
            assert(out@ =~= old(out)@ + escape_string(s@.take(i + 1)));
        }
        i = i + 1;
    }
    proof {
        assert(s@.take(n as int) =~= s@);
    }
}

/// A JSON document at run time, rendered by [`render_value`].
///
/// Only values this library ever sends are representable; in particular
/// numbers are unsigned, which covers every numeric field of the Send API
/// payloads.
#[derive(Debug, PartialEq, Eq)]
pub enum JsonValue {
    Null,
    Bool(bool),
    UInt(u64),
    Str(String),
    Array(Vec<JsonValue>),
    Object(Vec<(String, JsonValue)>),
}

/// The document a [`JsonValue`] stands for.
pub open spec fn jdata(v: JsonValue) -> JsonData
    decreases v,
{
    match v {
        JsonValue::Null => JsonData::Null,
        JsonValue::Bool(b) => JsonData::Bool(b),
        JsonValue::UInt(n) => JsonData::Int(n as int),
        JsonValue::Str(s) => JsonData::Str(s@),
        JsonValue::Array(items) => JsonData::Arr(jdata_seq(items@)),
        JsonValue::Object(members) => JsonData::Obj(member_data_seq(members@)),
    }
}

/// The documents a sequence of run-time values stands for.
pub open spec fn jdata_seq(s: Seq<JsonValue>) -> Seq<JsonData>
    decreases s,
{
    if s.len() == 0 {
        Seq::empty()
    } else {
        jdata_seq(s.drop_last()).push(jdata(s.last()))
    }
}

/// The members a sequence of run-time key/value pairs stands for.
pub open spec fn member_data_seq(s: Seq<(String, JsonValue)>) -> Seq<(Seq<char>, JsonData)>
    decreases s,
{
    if s.len() == 0 {
        Seq::empty()
    } else {
        member_data_seq(s.drop_last()).push((s.last().0@, jdata(s.last().1)))
    }
}

/// One more element at the end extends the rendering by a comma (when it is
/// not the first) and the element's own rendering.
pub proof fn lemma_render_elements_snoc(items: Seq<JsonData>, x: JsonData)
    ensures
        render_elements(items.push(x)) == if items.len() == 0 {
            render(x)
        } else {
            render_elements(items) + seq![','] + render(x)
        },
    decreases items.len(),
{
    let p = items.push(x);
    if items.len() == 0 {
        assert(p.len() == 1);
        assert(p[0] == x);
    } else {
        assert(p[0] == items[0]);
        assert(p.drop_first() =~= items.drop_first().push(x));
        lemma_render_elements_snoc(items.drop_first(), x);
        if items.len() == 1 {
            assert(render_elements(p) =~= render_elements(items) + seq![','] + render(x));
        } else {
            assert(render_elements(p) =~= render_elements(items) + seq![','] + render(x));
        }
    }
}

/// One more member at the end extends the rendering by a comma (when it is
/// not the first) and the member's own rendering.
pub proof fn lemma_render_members_snoc(members: Seq<(Seq<char>, JsonData)>, k: Seq<char>, v: JsonData)
    ensures
        render_members(members.push((k, v))) == if members.len() == 0 {
            seq!['"'] + escape_string(k) + seq!['"', ':'] + render(v)
        } else {
            render_members(members) + seq![','] + seq!['"'] + escape_string(k) + seq!['"', ':'] + render(v)
        },
    decreases members.len(),
{
    let p = members.push((k, v));
    if members.len() == 0 {
        assert(p.len() == 1);
        assert(p[0] == (k, v));
    } else {
        assert(p[0] == members[0]);
        assert(p.drop_first() =~= members.drop_first().push((k, v)));
        lemma_render_members_snoc(members.drop_first(), k, v);
        assert(render_members(p) =~= render_members(members) + seq![','] + seq!['"']
            + escape_string(k) + seq!['"', ':'] + render(v));
    }
}

/// The value under the first member with the given key, if any.
pub open spec fn obj_lookup(members: Seq<(Seq<char>, JsonData)>, key: Seq<char>) -> Option<JsonData>
    decreases members,
{
    if members.len() == 0 {
        None
    } else if members[0].0 == key {
        Some(members[0].1)
    } else {
        obj_lookup(members.drop_first(), key)
    }
}

/// Whether an object has a member with the given key.
pub open spec fn obj_has_key(members: Seq<(Seq<char>, JsonData)>, key: Seq<char>) -> bool {
    obj_lookup(members, key) is Some
}

/// Looking a key up in a concatenation looks in the front part first.
pub proof fn lemma_obj_lookup_concat(
    a: Seq<(Seq<char>, JsonData)>,
    b: Seq<(Seq<char>, JsonData)>,
    key: Seq<char>,
)
    ensures
        obj_lookup(a + b, key) == if obj_lookup(a, key) is Some {
            obj_lookup(a, key)
        } else {
            obj_lookup(b, key)
        },
    decreases a.len(),
{
    if a.len() == 0 {
        assert(a + b =~= b);
    } else {
        assert((a + b)[0] == a[0]);
        assert((a + b).drop_first() =~= a.drop_first() + b);
        lemma_obj_lookup_concat(a.drop_first(), b, key);
    }
}

/// Appending a one-element sequence is pushing its element.
pub proof fn lemma_concat_single<A>(s: Seq<A>, x: A)
    ensures
        s + seq![x] == s.push(x),
{
    assert(s + seq![x] =~= s.push(x));
}

/// Appending an empty sequence changes nothing.
pub proof fn lemma_concat_empty<A>(s: Seq<A>)
    ensures
        s + Seq::<A>::empty() == s,
{
    assert(s + Seq::<A>::empty() =~= s);
}

/// Sequence concatenation is associative.
pub proof fn lemma_concat_assoc<A>(a: Seq<A>, b: Seq<A>, c: Seq<A>)
    ensures
        (a + b) + c == a + (b + c),
{
    assert((a + b) + c =~= a + (b + c));
}

/// Looking a key up among a single member finds it exactly when the keys
/// agree.
pub proof fn lemma_obj_lookup_single(k: Seq<char>, v: JsonData, key: Seq<char>)
    ensures
        obj_lookup(seq![(k, v)], key) == if k == key {
            Some(v)
        } else {
            None::<JsonData>
        },
{
    assert(seq![(k, v)].drop_first() =~= Seq::<(Seq<char>, JsonData)>::empty());
    assert(obj_lookup(Seq::<(Seq<char>, JsonData)>::empty(), key) is None);
}

/// Appending one member to the run-time pairs appends its view.
pub proof fn lemma_member_data_seq_push(s: Seq<(String, JsonValue)>, m: (String, JsonValue))
    ensures
        member_data_seq(s.push(m)) == member_data_seq(s).push((m.0@, jdata(m.1))),
{
    let p = s.push(m);
    assert(p.drop_last() =~= s);
    assert(p.last() == m);
}

/// Appending one value to the run-time elements appends its view.
pub proof fn lemma_jdata_seq_push(s: Seq<JsonValue>, v: JsonValue)
    ensures
        jdata_seq(s.push(v)) == jdata_seq(s).push(jdata(v)),
{
    let p = s.push(v);
    assert(p.drop_last() =~= s);
    assert(p.last() == v);
}

/// An empty member list for building a JSON object.
pub fn obj_new() -> (m: Vec<(String, JsonValue)>)
    ensures
        member_data_seq(m@) == Seq::<(Seq<char>, JsonData)>::empty(),
{
    Vec::new()
}

/// Appends a member to a JSON object under construction.
pub fn obj_push(m: &mut Vec<(String, JsonValue)>, key: &str, v: JsonValue)
    ensures
        member_data_seq(final(m)@) == member_data_seq(old(m)@).push((key@, jdata(v))),
{
    let ghost before = m@;
    let ghost val = jdata(v);
    let owned_key = key.to_owned();
    m.push((owned_key, v));
    proof {
        assert(m@ =~= before.push(m@.last()));
        lemma_member_data_seq_push(before, m@.last());
        assert(member_data_seq(m@) == member_data_seq(before).push((key@, val)));
    }
}

/// Appends a string member to a JSON object under construction.
pub fn obj_push_str(m: &mut Vec<(String, JsonValue)>, key: &str, val: &str)
    ensures
        member_data_seq(final(m)@) == member_data_seq(old(m)@).push(
            (key@, JsonData::Str(val@)),
        ),
{
    obj_push(m, key, JsonValue::Str(val.to_owned()));
}

/// An empty element list for building a JSON array.
pub fn arr_new() -> (a: Vec<JsonValue>)
    ensures
        jdata_seq(a@) == Seq::<JsonData>::empty(),
{
    Vec::new()
}

/// Appends an element to a JSON array under construction.
pub fn arr_push(a: &mut Vec<JsonValue>, v: JsonValue)
    ensures
        jdata_seq(final(a)@) == jdata_seq(old(a)@).push(jdata(v)),
{
    let ghost before = a@;
    let ghost val = jdata(v);
    a.push(v);
    proof {
        assert(a@ =~= before.push(a@.last()));
        lemma_jdata_seq_push(before, a@.last());
        assert(jdata_seq(a@) == jdata_seq(before).push(val));
    }
}

/// Appends the rendering of `v` to `out`.
pub fn append_value(v: &JsonValue, out: &mut String)
    ensures
        final(out)@ == old(out)@ + render(jdata(*v)),
    decreases *v,
{
    broadcast use vstd::std_specs::vec::group_vec_axioms;

    match v {
        JsonValue::Null => {
            out.append("null");
        },
        JsonValue::Bool(b) => {
            if *b {
                out.append("true");
            } else {
                out.append("false");
            }
        },
        JsonValue::UInt(n) => {
            append_u64(out, *n);
        },
        JsonValue::Str(s) => {
            push_char(out, '"');
            append_escaped(out, s.as_str());
            push_char(out, '"');
            proof {
                assert(out@ =~= old(out)@ + (seq!['"'] + escape_string(s@) + seq!['"']));
            }
        },
        JsonValue::Array(items) => {
            push_char(out, '[');
            let ghost base = out@;
            let n = items.len();
            let mut i: usize = 0;
            while i < n
                invariant
                    n == items@.len(),
                    i <= n,
                    out@ == base + render_elements(jdata_seq(items@.take(i as int))),
                    base == old(out)@.push('['),
                    *v == JsonValue::Array(*items),
                decreases n - i,
            {
                if i > 0 {
                    push_char(out, ',');
                }
                proof {
                    assert(decreases_to!(*v => v->Array_0));
                    assert(decreases_to!(*items => items@));
                    assert(decreases_to!(items@ => items@[i as int]));
                }
                append_value(&items[i], out);
                proof {
                    let ghost t1 = items@.take(i + 1);
                    assert(t1.drop_last() =~= items@.take(i as int));
                    assert(t1.last() == items@[i as int]);
                    assert(jdata_seq(t1) == jdata_seq(items@.take(i as int)).push(jdata(items@[i as int])));
                    lemma_render_elements_snoc(jdata_seq(items@.take(i as int)), jdata(items@[i as int]));
                    assert(jdata_seq(items@.take(i as int)).len() == 0 <==> i == 0) by {
                        if i > 0 {
                            assert(items@.take(i as int).len() > 0);
                        }
                    }
                    assert(out@ =~= base + render_elements(jdata_seq(items@.take(i + 1))));
                }
                i = i + 1;
            }
            push_char(out, ']');
            proof {
                assert(items@.take(n as int) =~= items@);
                assert(out@ =~= old(out)@ + (seq!['['] + render_elements(jdata_seq(items@)) + seq![']']));
            }
        },
        JsonValue::Object(members) => {
            push_char(out, '{');
            proof {
                assert(decreases_to!(*v => v->Object_0));
            }
            append_members_body(members, out);
            push_char(out, '}');
            proof {
                assert(out@ =~= old(out)@ + (seq!['{'] + render_members(member_data_seq(members@)) + seq!['}']));
            }
        },
    }
}

/// Appends the comma-separated members of a JSON object (without the
/// braces) to `out`.
pub fn append_members_body(members: &Vec<(String, JsonValue)>, out: &mut String)
    ensures
        final(out)@ == old(out)@ + render_members(member_data_seq(members@)),
    decreases *members,
{
    let ghost base = out@;
    let n = members.len();
    let mut i: usize = 0;
    while i < n
        invariant
            n == members@.len(),
            i <= n,
            out@ == base + render_members(member_data_seq(members@.take(i as int))),
            base == old(out)@,
        decreases n - i,
    {
        if i > 0 {
            push_char(out, ',');
        }
        push_char(out, '"');
        append_escaped(out, members[i].0.as_str());
        push_char(out, '"');
        push_char(out, ':');
        proof {
            assert(decreases_to!(*members => members@));
            assert(decreases_to!(members@ => members@[i as int]));
            assert(decreases_to!(members@[i as int] => members@[i as int].1));
        }
        append_value(&members[i].1, out);
        proof {
            let ghost m = members@[i as int];
            let ghost t1 = members@.take(i + 1);
            assert(t1.drop_last() =~= members@.take(i as int));
            assert(t1.last() == m);
            assert(member_data_seq(t1) == member_data_seq(members@.take(i as int)).push((m.0@, jdata(m.1))));
            lemma_render_members_snoc(member_data_seq(members@.take(i as int)), m.0@, jdata(m.1));
            assert(member_data_seq(members@.take(i as int)).len() == 0 <==> i == 0) by {
                if i > 0 {
                    assert(members@.take(i as int).len() > 0);
                }
            }
            assert(out@ =~= base + render_members(member_data_seq(members@.take(i + 1))));
        }
        i = i + 1;
    }
    proof {
        assert(members@.take(n as int) =~= members@);
    }
}

/// Writes one JSON object member by member, keeping the exact rendered
/// text in step with the ghost member list.
///
/// Message types serialize themselves through a writer, so their `to_json`
/// contracts can speak of the object they produce without the builder
/// copying any of their data.
pub struct JsonObjWriter {
    buf: String,
    first: bool,
    members: Ghost<Seq<(Seq<char>, JsonData)>>,
}

impl JsonObjWriter {
    /// The members written so far, in order.
    pub closed spec fn members(self) -> Seq<(Seq<char>, JsonData)> {
        self.members@
    }

    /// The text written so far matches the members written so far.
    pub closed spec fn wf(self) -> bool {
        &&& self.buf@ == seq!['{'] + render_members(self.members@)
        &&& (self.first <==> self.members@.len() == 0)
    }

    /// Starts an empty object.
    pub fn new() -> (w: Self)
        ensures
            w.wf(),
            w.members() == Seq::<(Seq<char>, JsonData)>::empty(),
    {
        let mut buf = String::new();
        push_char(&mut buf, '{');
        let w = JsonObjWriter { buf, first: true, members: Ghost(Seq::empty()) };
        proof {
            assert(w.buf@ =~= seq!['{'] + render_members(w.members@));
        }
        w
    }

    /// Writes the separating comma and the quoted key of the next member.
    fn begin(&mut self, key: &str)
        requires
            old(self).wf(),
        ensures
            final(self).buf@ == old(self).buf@ + (if old(self).members@.len() == 0 {
                Seq::<char>::empty()
            } else {
                seq![',']
            }) + seq!['"'] + escape_string(key@) + seq!['"', ':'],
            final(self).first == false,
            final(self).members == old(self).members,
    {
        if !self.first {
            push_char(&mut self.buf, ',');
        }
        self.first = false;
        push_char(&mut self.buf, '"');
        append_escaped(&mut self.buf, key);
        push_char(&mut self.buf, '"');
        push_char(&mut self.buf, ':');
        proof {
            assert(final(self).buf@ =~= old(self).buf@ + (if old(self).members@.len() == 0 {
                Seq::<char>::empty()
            } else {
                seq![',']
            }) + seq!['"'] + escape_string(key@) + seq!['"', ':']);
        }
    }

    /// A writer whose text ends with one more rendered member, and whose
    /// ghost members record it, is again well formed.
    proof fn lemma_record(w: Self, prev: Self, key: Seq<char>, v: JsonData)
        requires
            prev.wf(),
            w.buf@ == prev.buf@ + (if prev.members@.len() == 0 {
                Seq::<char>::empty()
            } else {
                seq![',']
            }) + seq!['"'] + escape_string(key) + seq!['"', ':'] + render(v),
            w.first == false,
            w.members@ == prev.members@.push((key, v)),
        ensures
            w.wf(),
    {
        lemma_render_members_snoc(prev.members@, key, v);
        assert(w.buf@ =~= seq!['{'] + render_members(w.members@));
    }

    /// Adds a string member.
    pub fn add_str(&mut self, key: &str, val: &str)
        requires
            old(self).wf(),
        ensures
            final(self).wf(),
            final(self).members() == old(self).members().push((key@, JsonData::Str(val@))),
    {
        let ghost prev = *self;
        self.begin(key);
        push_char(&mut self.buf, '"');
        append_escaped(&mut self.buf, val);
        push_char(&mut self.buf, '"');
        self.members = Ghost(prev.members@.push((key@, JsonData::Str(val@))));
        proof {
            assert(self.buf@ =~= prev.buf@ + (if prev.members@.len() == 0 {
                Seq::<char>::empty()
            } else {
                seq![',']
            }) + seq!['"'] + escape_string(key@) + seq!['"', ':'] + render(JsonData::Str(val@)));
            Self::lemma_record(*self, prev, key@, JsonData::Str(val@));
        }
    }

    /// Adds an unsigned integer member.
    pub fn add_u64(&mut self, key: &str, val: u64)
        requires
            old(self).wf(),
        ensures
            final(self).wf(),
            final(self).members() == old(self).members().push((key@, JsonData::Int(val as int))),
    {
        let ghost prev = *self;
        self.begin(key);
        append_u64(&mut self.buf, val);
        self.members = Ghost(prev.members@.push((key@, JsonData::Int(val as int))));
        proof {
            assert(self.buf@ =~= prev.buf@ + (if prev.members@.len() == 0 {
                Seq::<char>::empty()
            } else {
                seq![',']
            }) + seq!['"'] + escape_string(key@) + seq!['"', ':'] + render(JsonData::Int(val as int)));
            Self::lemma_record(*self, prev, key@, JsonData::Int(val as int));
        }
    }

    /// Adds a boolean member.
    pub fn add_bool(&mut self, key: &str, val: bool)
        requires
            old(self).wf(),
        ensures
            final(self).wf(),
            final(self).members() == old(self).members().push((key@, JsonData::Bool(val))),
    {
        let ghost prev = *self;
        self.begin(key);
        if val {
            self.buf.append("true");
        } else {
            self.buf.append("false");
        }
        self.members = Ghost(prev.members@.push((key@, JsonData::Bool(val))));
        proof {
            assert(self.buf@ =~= prev.buf@ + (if prev.members@.len() == 0 {
                Seq::<char>::empty()
            } else {
                seq![',']
            }) + seq!['"'] + escape_string(key@) + seq!['"', ':'] + render(JsonData::Bool(val)));
            Self::lemma_record(*self, prev, key@, JsonData::Bool(val));
        }
    }

    /// Adds a member with an arbitrary JSON value.
    pub fn add_value(&mut self, key: &str, v: &JsonValue)
        requires
            old(self).wf(),
        ensures
            final(self).wf(),
            final(self).members() == old(self).members().push((key@, jdata(*v))),
    {
        let ghost prev = *self;
        self.begin(key);
        append_value(v, &mut self.buf);
        self.members = Ghost(prev.members@.push((key@, jdata(*v))));
        proof {
            assert(self.buf@ =~= prev.buf@ + (if prev.members@.len() == 0 {
                Seq::<char>::empty()
            } else {
                seq![',']
            }) + seq!['"'] + escape_string(key@) + seq!['"', ':'] + render(jdata(*v)));
            Self::lemma_record(*self, prev, key@, jdata(*v));
        }
    }

    /// Adds an object-valued member from borrowed key/value pairs.
    pub fn add_object(&mut self, key: &str, members: &Vec<(String, JsonValue)>)
        requires
            old(self).wf(),
        ensures
            final(self).wf(),
            final(self).members() == old(self).members().push(
                (key@, JsonData::Obj(member_data_seq(members@))),
            ),
    {
        let ghost prev = *self;
        self.begin(key);
        push_char(&mut self.buf, '{');
        append_members_body(members, &mut self.buf);
        push_char(&mut self.buf, '}');
        self.members = Ghost(prev.members@.push((key@, JsonData::Obj(member_data_seq(members@)))));
        proof {
            let ghost v = JsonData::Obj(member_data_seq(members@));
            assert(self.buf@ =~= prev.buf@ + (if prev.members@.len() == 0 {
                Seq::<char>::empty()
            } else {
                seq![',']
            }) + seq!['"'] + escape_string(key@) + seq!['"', ':'] + render(v));
            Self::lemma_record(*self, prev, key@, v);
        }
    }

    /// Closes the object and hands the finished text back.
    pub fn finish(self) -> (r: String)
        requires
            self.wf(),
        ensures
            r@ == render(JsonData::Obj(self.members())),
    {
        let JsonObjWriter { mut buf, first: _, members: _ } = self;
        push_char(&mut buf, '}');
        proof {
            assert(buf@ =~= render(JsonData::Obj(self.members@)));
        }
        buf
    }
}

/// Renders a JSON document to its exact text.
pub fn render_value(v: &JsonValue) -> (r: String)
    ensures
        r@ == render(jdata(*v)),
{
    let mut out = String::new();
    append_value(v, &mut out);
    proof {
        assert(out@ =~= render(jdata(*v)));
    }
    out
}

} // verus!
