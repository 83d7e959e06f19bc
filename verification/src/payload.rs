//! The outbound payload.
//!
//! A payload is an ordered mapping of field name to field value. It is built
//! per call by copying a channel's configured static fields and overlaying
//! the call-site dynamic fields; on a key collision the dynamic value wins.
//! The canonical serialization of a payload is the JSON object that lists
//! the fields in order.

use vstd::prelude::*;
use crate::chars::{chars_to_string, str_to_chars};

verus! {

/// The mathematical value of one payload field.
#[verifier::ext_equal]
pub enum FieldValueModel {
    Text(Seq<char>),
    Flag(bool),
    SectionBlocks(Seq<char>),
}

/// The value of one payload field: a text, a boolean flag, or a one-section
/// block list carrying a mrkdwn text (the shape Slack's API expects).
#[derive(Debug)]
pub enum FieldValue {
    Text(String),
    Flag(bool),
    SectionBlocks(String),
}

impl View for FieldValue {
    type V = FieldValueModel;

    open spec fn view(&self) -> FieldValueModel {
        match self {
            FieldValue::Text(s) => FieldValueModel::Text(s@),
            FieldValue::Flag(b) => FieldValueModel::Flag(*b),
            FieldValue::SectionBlocks(s) => FieldValueModel::SectionBlocks(s@),
        }
    }
}

impl FieldValue {
    /// A copy with the same value.
    pub fn duplicate(&self) -> (r: FieldValue)
        ensures
            r@ == self@,
    {
        match self {
            FieldValue::Text(s) => FieldValue::Text(s.clone()),
            FieldValue::Flag(b) => FieldValue::Flag(*b),
            FieldValue::SectionBlocks(s) => FieldValue::SectionBlocks(s.clone()),
        }
    }
}

/// An ordered list of named fields, the body of one outbound request.
#[derive(Debug)]
pub struct Payload {
    pub fields: Vec<(String, FieldValue)>,
}

/// The sequence of name/value pairs that a field list denotes.
pub open spec fn fields_view(s: Seq<(String, FieldValue)>) -> Seq<(Seq<char>, FieldValueModel)> {
    s.map_values(|p: (String, FieldValue)| (p.0@, p.1@))
}

impl View for Payload {
    type V = Seq<(Seq<char>, FieldValueModel)>;

    open spec fn view(&self) -> Seq<(Seq<char>, FieldValueModel)> {
        fields_view(self.fields@)
    }
}

pub proof fn lemma_fields_view_index(s: Seq<(String, FieldValue)>, i: int)
    requires
        0 <= i < s.len(),
    ensures
        fields_view(s).len() == s.len(),
        fields_view(s)[i] == (s[i].0@, s[i].1@),
{
}

proof fn lemma_fields_view_push(s: Seq<(String, FieldValue)>, p: (String, FieldValue))
    ensures
        fields_view(s.push(p)) == fields_view(s).push((p.0@, p.1@)),
{
    assert(fields_view(s.push(p)) =~= fields_view(s).push((p.0@, p.1@)));
}

proof fn lemma_fields_view_update(s: Seq<(String, FieldValue)>, i: int, p: (String, FieldValue))
    requires
        0 <= i < s.len(),
    ensures
        fields_view(s.update(i, p)) == fields_view(s).update(i, (p.0@, p.1@)),
{
    assert(fields_view(s.update(i, p)) =~= fields_view(s).update(i, (p.0@, p.1@)));
}

/// The first index at or after `i` whose field is named `k`, or -1.
pub open spec fn find_key_from(s: Seq<(Seq<char>, FieldValueModel)>, k: Seq<char>, i: int) -> int
    decreases s.len() - i,
        when 0 <= i <= s.len()
{
    if i >= s.len() {
        -1
    } else if s[i].0 == k {
        i
    } else {
        find_key_from(s, k, i + 1)
    }
}

/// The first index whose field is named `k`, or -1.
pub open spec fn find_key(s: Seq<(Seq<char>, FieldValueModel)>, k: Seq<char>) -> int {
    find_key_from(s, k, 0)
}

/// `s` with the binding for `k` set to `v`: the first field named `k` is
/// replaced in place, or a new field is appended if none exists.
pub open spec fn upsert(
    s: Seq<(Seq<char>, FieldValueModel)>,
    k: Seq<char>,
    v: FieldValueModel,
) -> Seq<(Seq<char>, FieldValueModel)> {
    let i = find_key(s, k);
    if i >= 0 {
        s.update(i, (k, v))
    } else {
        s.push((k, v))
    }
}

/// The static fields overlaid by the dynamic fields, in order; on a key
/// collision the dynamic value wins.
pub open spec fn merge_fields(
    stat: Seq<(Seq<char>, FieldValueModel)>,
    dynf: Seq<(Seq<char>, FieldValueModel)>,
) -> Seq<(Seq<char>, FieldValueModel)>
    decreases dynf.len(),
{
    if dynf.len() == 0 {
        stat
    } else {
        upsert(merge_fields(stat, dynf.drop_last()), dynf.last().0, dynf.last().1)
    }
}

impl Payload {
    /// A payload with no fields.
    pub fn new() -> (p: Payload)
        ensures
            p@ == Seq::<(Seq<char>, FieldValueModel)>::empty(),
    {
        let p = Payload { fields: Vec::new() };
        proof {
            assert(p@ =~= Seq::<(Seq<char>, FieldValueModel)>::empty());
        }
        p
    }

    /// Appends a field, without looking for an earlier one of the same name.
    pub fn push_field(&mut self, name: String, value: FieldValue)
        ensures
            final(self)@ == old(self)@.push((name@, value@)),
    {
        let ghost ov = self@;
        let ghost gn = name@;
        let ghost gv = value@;
        self.fields.push((name, value));
        proof {
            assert(self@ =~= ov.push((gn, gv)));
        }
    }

    /// Sets the binding for `name` to `value`: replaces the first field of
    /// that name in place, or appends a new field.
    pub fn set_field(&mut self, name: String, value: FieldValue)
        ensures
            final(self)@ == upsert(old(self)@, name@, value@),
    {
        let ghost ov = self@;
        let ghost gn = name@;
        let ghost gv = value@;
        let n = self.fields.len();
        let mut j: usize = 0;
        while j < n
            invariant
                j <= n,
                n == self.fields@.len(),
                ov == self@,
                ov == old(self)@,
                self@.len() == n,
                gn == name@,
                gv == value@,
                find_key_from(ov, gn, 0) == find_key_from(ov, gn, j as int),
            decreases n - j,
        {
            proof {
                assert(ov[j as int].0 == self.fields@[j as int].0@);
            }
            if self.fields[j].0.eq(&name) {
                proof {
                    assert(find_key(ov, gn) == j);
                }
                let ghost gf = self.fields@;
                let _ = self.fields.remove(j);
                let ghost rf = self.fields@;
                self.fields.insert(j, (name, value));
                proof {
                    assert(rf =~= gf.remove(j as int));
                    assert(self.fields@ =~= gf.update(j as int, (name, value)));
                    lemma_fields_view_update(gf, j as int, (name, value));
                    assert(self@ =~~= ov.update(j as int, (gn, gv)));
                }
                return ;
            }
            j = j + 1;
        }
        proof {
            assert(find_key(ov, gn) == -1);
        }
        self.fields.push((name, value));
        proof {
            assert(self@ =~= ov.push((gn, gv)));
        }
    }

    /// A copy with the same fields.
    pub fn duplicate(&self) -> (r: Payload)
        ensures
            r@ == self@,
    {
        let n = self.fields.len();
        let mut fields: Vec<(String, FieldValue)> = Vec::new();
        let mut i: usize = 0;
        while i < n
            invariant
                i <= n,
                n == self.fields@.len(),
                fields_view(fields@) == self@.subrange(0, i as int),
            decreases n - i,
        {
            let ghost gf = fields@;
            let name = self.fields[i].0.clone();
            let value = self.fields[i].1.duplicate();
            fields.push((name, value));
            i = i + 1;
            proof {
                lemma_fields_view_push(gf, (name, value));
                lemma_fields_view_index(self.fields@, i - 1 as int);
                assert(fields_view(fields@) =~= self@.subrange(0, i as int));
            }
        }
        let r = Payload { fields };
        proof {
            assert(r@ =~= self@);
        }
        r
    }

    /// The number of fields.
    pub fn len(&self) -> (n: usize)
        ensures
            n == self@.len(),
    {
        self.fields.len()
    }
}

/// The static fields of a configuration overlaid by the dynamic fields of
/// one call; on a key collision the dynamic value wins. Both inputs are left
/// as they are: the result is a fresh payload.
pub fn compose(stat: &Payload, dynf: &Payload) -> (p: Payload)
    ensures
        p@ == merge_fields(stat@, dynf@),
{
    let mut p = stat.duplicate();
    let n = dynf.fields.len();
    let mut i: usize = 0;
    while i < n
        invariant
            i <= n,
            n == dynf.fields@.len(),
            n == dynf@.len(),
            p@ == merge_fields(stat@, dynf@.subrange(0, i as int)),
        decreases n - i,
    {
        proof {
            assert(dynf@[i as int] == (dynf.fields@[i as int].0@, dynf.fields@[i as int].1@));
        }
        let name = dynf.fields[i].0.clone();
        let value = dynf.fields[i].1.duplicate();
        p.set_field(name, value);
        i = i + 1;
        proof {
            let pre = dynf@.subrange(0, i - 1 as int);
            let cur = dynf@.subrange(0, i as int);
            assert(cur.drop_last() =~= pre);
            assert(cur.last() == dynf@[i - 1 as int]);
        }
    }
    proof {
        assert(dynf@.subrange(0, n as int) =~= dynf@);
    }
    p
}

/// The hexadecimal digit of a value below sixteen, lower case.
pub open spec fn hex_digit(n: int) -> char {
    if n == 0 {
        '0'
    } else if n == 1 {
        '1'
    } else if n == 2 {
        '2'
    } else if n == 3 {
        '3'
    } else if n == 4 {
        '4'
    } else if n == 5 {
        '5'
    } else if n == 6 {
        '6'
    } else if n == 7 {
        '7'
    } else if n == 8 {
        '8'
    } else if n == 9 {
        '9'
    } else if n == 10 {
        'a'
    } else if n == 11 {
        'b'
    } else if n == 12 {
        'c'
    } else if n == 13 {
        'd'
    } else if n == 14 {
        'e'
    } else {
        'f'
    }
}

/// The hexadecimal digit of a value below sixteen, lower case.
pub fn hex_digit_char(n: u8) -> (c: char)
    requires
        n < 16,
    ensures
        c == hex_digit(n as int),
{
    if n == 0 {
        '0'
    } else if n == 1 {
        '1'
    } else if n == 2 {
        '2'
    } else if n == 3 {
        '3'
    } else if n == 4 {
        '4'
    } else if n == 5 {
        '5'
    } else if n == 6 {
        '6'
    } else if n == 7 {
        '7'
    } else if n == 8 {
        '8'
    } else if n == 9 {
        '9'
    } else if n == 10 {
        'a'
    } else if n == 11 {
        'b'
    } else if n == 12 {
        'c'
    } else if n == 13 {
        'd'
    } else if n == 14 {
        'e'
    } else {
        'f'
    }
}

/// One character of a JSON string body: quote, backslash and control
/// characters are escaped, every other character stands as it is.
pub open spec fn json_escape_char(c: char) -> Seq<char> {
    if c == '"' {
        seq!['\\', '"']
    } else if c == '\\' {
        seq!['\\', '\\']
    } else if c == '\n' {
        seq!['\\', 'n']
    } else if c == '\r' {
        seq!['\\', 'r']
    } else if c == '\t' {
        seq!['\\', 't']
    } else if (c as u32) < 32 {
        seq!['\\', 'u', '0', '0', hex_digit((c as u32) as int / 16), hex_digit(
            (c as u32) as int % 16,
        )]
    } else {
        seq![c]
    }
}

/// The JSON escaping of the suffix of `s` that starts at `pos`.
pub open spec fn json_escape_from(s: Seq<char>, pos: int) -> Seq<char>
    decreases s.len() - pos,
        when 0 <= pos <= s.len()
{
    if pos >= s.len() {
        Seq::empty()
    } else {
        json_escape_char(s[pos]) + json_escape_from(s, pos + 1)
    }
}

/// The JSON escaping of a whole text.
pub open spec fn json_escape(s: Seq<char>) -> Seq<char> {
    json_escape_from(s, 0)
}

/// The JSON string literal that denotes `s`.
pub open spec fn json_string(s: Seq<char>) -> Seq<char> {
    seq!['"'] + json_escape(s) + seq!['"']
}

/// What a one-section mrkdwn block list opens with, up to its text value.
pub open spec fn blocks_prefix() -> Seq<char> {
    "[{\"type\":\"section\",\"text\":{\"type\":\"mrkdwn\",\"text\":"@
}

/// What a one-section mrkdwn block list closes with.
pub open spec fn blocks_suffix() -> Seq<char> {
    "}}]"@
}

/// The JSON value that one payload field value serializes to.
pub open spec fn json_of_value(v: FieldValueModel) -> Seq<char> {
    match v {
        FieldValueModel::Text(s) => json_string(s),
        FieldValueModel::Flag(b) => if b {
            "true"@
        } else {
            "false"@
        },
        FieldValueModel::SectionBlocks(s) => blocks_prefix() + json_string(s) + blocks_suffix(),
    }
}

/// The members of the JSON object from field `pos` on, each preceded by a
/// comma unless it is the first.
pub open spec fn json_of_fields_from(s: Seq<(Seq<char>, FieldValueModel)>, pos: int) -> Seq<char>
    decreases s.len() - pos,
        when 0 <= pos <= s.len()
{
    if pos >= s.len() {
        Seq::empty()
    } else {
        (if pos > 0 {
            seq![',']
        } else {
            Seq::<char>::empty()
        }) + json_string(s[pos].0) + seq![':'] + json_of_value(s[pos].1) + json_of_fields_from(
            s,
            pos + 1,
        )
    }
}

/// The canonical JSON serialization of a payload: one object, fields in
/// order.
pub open spec fn json_of_payload(s: Seq<(Seq<char>, FieldValueModel)>) -> Seq<char> {
    seq!['{'] + json_of_fields_from(s, 0) + seq!['}']
}

/// Appends the JSON escaping of `s` to `out`.
fn append_json_escaped(out: &mut Vec<char>, s: &str)
    ensures
        final(out)@ == old(out)@ + json_escape(s@),
{
    let t = str_to_chars(s);
    let n = t.len();
    let mut i: usize = 0;
    while i < n
        invariant
            t@ == s@,
            n == t@.len(),
            i <= n,
            old(out)@ + json_escape(s@) == out@ + json_escape_from(t@, i as int),
        decreases n - i,
    {
        proof {
            assert(json_escape_from(t@, i as int) == json_escape_char(t@[i as int])
                + json_escape_from(t@, i + 1 as int));
        }
        let ghost base = out@;
        let c = t[i];
        if c == '"' {
            out.push('\\');
            out.push('"');
        } else if c == '\\' {
            out.push('\\');
            out.push('\\');
        } else if c == '\n' {
            out.push('\\');
            out.push('n');
        } else if c == '\r' {
            out.push('\\');
            out.push('r');
        } else if c == '\t' {
            out.push('\\');
            out.push('t');
        } else {
            let code = c as u32;
            if code < 32 {
                out.push('\\');
                out.push('u');
                out.push('0');
                out.push('0');
                out.push(hex_digit_char((code / 16) as u8));
                out.push(hex_digit_char((code % 16) as u8));
            } else {
                out.push(c);
            }
        }
        proof {
            assert(out@ =~= base + json_escape_char(t@[i as int]));
            assert(old(out)@ + json_escape(s@) =~= out@ + json_escape_from(t@, i + 1 as int));
        }
        i = i + 1;
    }
    proof {
        assert(out@ =~= old(out)@ + json_escape(s@));
    }
}

/// Appends the JSON string literal that denotes `s` to `out`.
fn append_json_string(out: &mut Vec<char>, s: &str)
    ensures
        final(out)@ == old(out)@ + json_string(s@),
{
    out.push('"');
    append_json_escaped(out, s);
    out.push('"');
    proof {
        assert(out@ =~= old(out)@ + json_string(s@));
    }
}

/// Appends the characters of a string slice to `out`.
fn append_str_chars(out: &mut Vec<char>, s: &str)
    ensures
        final(out)@ == old(out)@ + s@,
{
    let mut t = str_to_chars(s);
    out.append(&mut t);
}

/// Appends the JSON value of one field value to `out`.
fn append_json_value(out: &mut Vec<char>, v: &FieldValue)
    ensures
        final(out)@ == old(out)@ + json_of_value(v@),
{
    match v {
        FieldValue::Text(s) => {
            append_json_string(out, s.as_str());
        },
        FieldValue::Flag(b) => {
            if *b {
                append_str_chars(out, "true");
            } else {
                append_str_chars(out, "false");
            }
        },
        FieldValue::SectionBlocks(s) => {
            append_str_chars(out, "[{\"type\":\"section\",\"text\":{\"type\":\"mrkdwn\",\"text\":");
            append_json_string(out, s.as_str());
            append_str_chars(out, "}}]");
            proof {
                assert(out@ =~= old(out)@ + json_of_value(v@));
            }
        },
    }
}

/// Serializes a payload to its canonical JSON object, fields in order.
pub fn serialize_payload(p: &Payload) -> (r: String)
    ensures
        r@ == json_of_payload(p@),
{
    let mut out: Vec<char> = Vec::new();
    out.push('{');
    let n = p.fields.len();
    let mut i: usize = 0;
    while i < n
        invariant
            n == p.fields@.len(),
            n == p@.len(),
            i <= n,
            seq!['{'] + json_of_fields_from(p@, 0) == out@ + json_of_fields_from(p@, i as int),
        decreases n - i,
    {
        proof {
            assert(p@[i as int] == (p.fields@[i as int].0@, p.fields@[i as int].1@));
        }
        let ghost base = out@;
        if i > 0 {
            out.push(',');
        }
        append_json_string(&mut out, p.fields[i].0.as_str());
        out.push(':');
        append_json_value(&mut out, &p.fields[i].1);
        proof {
            assert(out@ =~= base + (if i > 0 {
                seq![',']
            } else {
                Seq::<char>::empty()
            }) + json_string(p@[i as int].0) + seq![':'] + json_of_value(p@[i as int].1));
            assert(seq!['{'] + json_of_fields_from(p@, 0) =~= out@ + json_of_fields_from(
                p@,
                i + 1 as int,
            ));
        }
        i = i + 1;
    }
    out.push('}');
    proof {
        assert(out@ =~= json_of_payload(p@));
    }
    chars_to_string(&out)
}

} // verus!
