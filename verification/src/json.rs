//! A structured value model for provider-defined response data, with a
//! serializer whose output is pinned down character by character.
use vstd::prelude::*;
use vstd::string::StrSliceExecFns;

verus! {

broadcast use vstd::std_specs::vec::group_vec_axioms;

/// A structured name/value document: the shape of the provider-defined
/// `Data` payload carried by a response.
#[derive(Debug, PartialEq)]
pub enum JsonValue {
    Null,
    Bool(bool),
    Int(i64),
    UInt(u64),
    Str(String),
    Array(Vec<JsonValue>),
    Object(Vec<(String, JsonValue)>),
}

/// The character for one decimal digit.
pub open spec fn digit_char(d: nat) -> char {
    if d == 0 { '0' }
    else if d == 1 { '1' }
    else if d == 2 { '2' }
    else if d == 3 { '3' }
    else if d == 4 { '4' }
    else if d == 5 { '5' }
    else if d == 6 { '6' }
    else if d == 7 { '7' }
    else if d == 8 { '8' }
    else { '9' }
}

/// The character for one lowercase hexadecimal digit.
pub open spec fn hex_digit_char(d: nat) -> char {
    if d < 10 { digit_char(d) }
    else if d == 10 { 'a' }
    else if d == 11 { 'b' }
    else if d == 12 { 'c' }
    else if d == 13 { 'd' }
    else if d == 14 { 'e' }
    else { 'f' }
}

/// The decimal rendering of a natural number, most significant digit first,
/// with no leading zeroes (a single `'0'` for zero).
pub open spec fn dec_digits(n: nat) -> Seq<char>
    decreases n,
{
    if n < 10 {
        seq![digit_char(n)]
    } else {
        dec_digits(n / 10) + seq![digit_char(n % 10)]
    }
}

/// The decimal rendering of an integer: a minus sign before the digits of
/// its magnitude when negative.
pub open spec fn int_digits(i: int) -> Seq<char> {
    if i >= 0 {
        dec_digits(i as nat)
    } else {
        seq!['-'] + dec_digits((-i) as nat)
    }
}

/// How one character appears inside a serialized string: quote, backslash
/// and control characters are escaped, everything else stands as itself.
pub open spec fn esc_char(c: char) -> Seq<char> {
    if c == '"' {
        seq!['\\', '"']
    } else if c == '\\' {
        seq!['\\', '\\']
    } else if c == '\u{08}' {
        seq!['\\', 'b']
    } else if c == '\u{09}' {
        seq!['\\', 't']
    } else if c == '\n' {
        seq!['\\', 'n']
    } else if c == '\u{0c}' {
        seq!['\\', 'f']
    } else if c == '\r' {
        seq!['\\', 'r']
    } else if (c as u32) < 0x20 {
        seq!['\\', 'u', '0', '0', hex_digit_char((c as u32 / 16) as nat), hex_digit_char(
            (c as u32 % 16) as nat,
        )]
    } else {
        seq![c]
    }
}

/// A character sequence with every character escaped as `esc_char` says.
pub open spec fn escaped(s: Seq<char>) -> Seq<char>
    decreases s.len(),
{
    if s.len() == 0 {
        Seq::empty()
    } else {
        esc_char(s[0]) + escaped(s.drop_first())
    }
}

/// A serialized string: the escaped characters between double quotes.
pub open spec fn json_string(s: Seq<char>) -> Seq<char> {
    seq!['"'] + escaped(s) + seq!['"']
}

/// The serialized form of a structured value.
pub open spec fn json_of(v: JsonValue) -> Seq<char>
    decreases v,
{
    match v {
        JsonValue::Null => "null"@,
        JsonValue::Bool(b) => if b { "true"@ } else { "false"@ },
        JsonValue::Int(i) => int_digits(i as int),
        JsonValue::UInt(u) => dec_digits(u as nat),
        JsonValue::Str(s) => json_string(s@),
        JsonValue::Array(items) => seq!['['] + json_items(items@, 0) + seq![']'],
        JsonValue::Object(fields) => seq!['{'] + json_fields(fields@, 0) + seq!['}'],
    }
}

/// The serialized elements of an array from position `i` on, separated by commas.
pub open spec fn json_items(items: Seq<JsonValue>, i: int) -> Seq<char>
    decreases items, items.len() - i,
{
    if i < 0 || i >= items.len() {
        Seq::empty()
    } else if i + 1 == items.len() {
        json_of(items[i])
    } else {
        json_of(items[i]) + seq![','] + json_items(items, i + 1)
    }
}

/// The serialized members of an object from position `i` on: quoted key,
/// colon, value, separated by commas.
pub open spec fn json_fields(fields: Seq<(String, JsonValue)>, i: int) -> Seq<char>
    decreases fields, fields.len() - i,
{
    if i < 0 || i >= fields.len() {
        Seq::empty()
    } else if i + 1 == fields.len() {
        json_string(fields[i].0@) + seq![':'] + json_of(fields[i].1)
    } else {
        json_string(fields[i].0@) + seq![':'] + json_of(fields[i].1) + seq![','] + json_fields(
            fields,
            i + 1,
        )
    }
}

/// Relies on `String: FromIterator<char>` (via `Iterator::collect`): the
/// collected string holds exactly the characters of the vector, in order.
#[verifier::external_body]
pub(crate) fn chars_to_string(v: &Vec<char>) -> (r: String)
    ensures
        r@ == v@,
{
    v.iter().collect()
}

/// Appends every character of `s` to `out`.
pub(crate) fn push_str_chars(out: &mut Vec<char>, s: &str)
    ensures
        final(out)@ == old(out)@ + s@,
{
    let n = s.unicode_len();
    let mut i: usize = 0;
    while i < n
        invariant
            i <= n,
            n == s@.len(),
            out@ == old(out)@ + s@.take(i as int),
        decreases n - i,
    {
        let c = s.get_char(i);
        out.push(c);
        assert(s@.take(i as int).push(c) =~= s@.take(i + 1 as int));
        i = i + 1;
    }
    assert(s@.take(n as int) =~= s@);
}

/// The exec counterpart of `digit_char`.
fn digit_to_char(d: u64) -> (c: char)
    requires
        d < 10,
    ensures
        c == digit_char(d as nat),
{
    if d == 0 { '0' }
    else if d == 1 { '1' }
    else if d == 2 { '2' }
    else if d == 3 { '3' }
    else if d == 4 { '4' }
    else if d == 5 { '5' }
    else if d == 6 { '6' }
    else if d == 7 { '7' }
    else if d == 8 { '8' }
    else { '9' }
}

/// The exec counterpart of `hex_digit_char`.
pub(crate) fn hex_digit_to_char(d: u8) -> (c: char)
    requires
        d < 16,
    ensures
        c == hex_digit_char(d as nat),
{
    if d < 10 { digit_to_char(d as u64) }
    else if d == 10 { 'a' }
    else if d == 11 { 'b' }
    else if d == 12 { 'c' }
    else if d == 13 { 'd' }
    else if d == 14 { 'e' }
    else { 'f' }
}

/// Appends the decimal rendering of `n` to `out`.
pub(crate) fn push_u64_dec(n: u64, out: &mut Vec<char>)
    ensures
        final(out)@ == old(out)@ + dec_digits(n as nat),
    decreases n,
{
    if n < 10 {
        out.push(digit_to_char(n));
    } else {
        push_u64_dec(n / 10, out);
        out.push(digit_to_char(n % 10));
    }
}

/// Appends the decimal rendering of `n` to `out`, minus sign included.
pub(crate) fn push_i64_dec(n: i64, out: &mut Vec<char>)
    ensures
        final(out)@ == old(out)@ + int_digits(n as int),
{
    if n >= 0 {
        push_u64_dec(n as u64, out);
    } else {
        out.push('-');
        let m: u64 = (-(n as i128)) as u64;
        push_u64_dec(m, out);
    }
}

proof fn lemma_escaped_push(s: Seq<char>, c: char)
    ensures
        escaped(s.push(c)) == escaped(s) + esc_char(c),
    decreases s.len(),
{
    if s.len() == 0 {
        assert(s.push(c).drop_first() =~= s);
        assert(escaped(s.push(c)) =~= escaped(s) + esc_char(c));
    } else {
        lemma_escaped_push(s.drop_first(), c);
        assert(s.push(c).drop_first() =~= s.drop_first().push(c));
        assert(escaped(s.push(c)) =~= escaped(s) + esc_char(c));
    }
}

/// Appends one character to `out` in its escaped form.
fn push_esc_char(c: char, out: &mut Vec<char>)
    ensures
        final(out)@ == old(out)@ + esc_char(c),
{
    if c == '"' {
        out.push('\\');
        out.push('"');
    } else if c == '\\' {
        out.push('\\');
        out.push('\\');
    } else if c == '\u{08}' {
        out.push('\\');
        out.push('b');
    } else if c == '\u{09}' {
        out.push('\\');
        out.push('t');
    } else if c == '\n' {
        out.push('\\');
        out.push('n');
    } else if c == '\u{0c}' {
        out.push('\\');
        out.push('f');
    } else if c == '\r' {
        out.push('\\');
        out.push('r');
    } else if (c as u32) < 0x20 {
        out.push('\\');
        out.push('u');
        out.push('0');
        out.push('0');
        out.push(hex_digit_to_char((c as u32 / 16) as u8));
        out.push(hex_digit_to_char((c as u32 % 16) as u8));
    } else {
        out.push(c);
    }
    assert(out@ =~= old(out)@ + esc_char(c));
}

/// Appends the serialized form of the string `s` to `out`.
pub(crate) fn write_json_string(s: &str, out: &mut Vec<char>)
    ensures
        final(out)@ == old(out)@ + json_string(s@),
{
    out.push('"');
    let n = s.unicode_len();
    let mut i: usize = 0;
    while i < n
        invariant
            i <= n,
            n == s@.len(),
            out@ == old(out)@ + seq!['"'] + escaped(s@.take(i as int)),
        decreases n - i,
    {
        let c = s.get_char(i);
        push_esc_char(c, out);
        proof {
            assert(s@.take(i as int).push(c) =~= s@.take(i + 1 as int));
            lemma_escaped_push(s@.take(i as int), c);
        }
        i = i + 1;
    }
    assert(s@.take(n as int) =~= s@);
    out.push('"');
    assert(out@ =~= old(out)@ + json_string(s@));
}

/// Appends the serialized form of `v` to `out`.
pub(crate) fn write_json(v: &JsonValue, out: &mut Vec<char>)
    ensures
        final(out)@ == old(out)@ + json_of(*v),
    decreases *v,
{
    match v {
        JsonValue::Null => {
            push_str_chars(out, "null");
        },
        JsonValue::Bool(b) => {
            push_str_chars(out, if *b { "true" } else { "false" });
        },
        JsonValue::Int(i) => {
            push_i64_dec(*i, out);
        },
        JsonValue::UInt(u) => {
            push_u64_dec(*u, out);
        },
        JsonValue::Str(s) => {
            write_json_string(s.as_str(), out);
        },
        JsonValue::Array(items) => {
            out.push('[');
            write_json_items(items, 0, out);
            out.push(']');
            assert(out@ =~= old(out)@ + json_of(*v));
        },
        JsonValue::Object(fields) => {
            out.push('{');
            write_json_fields(fields, 0, out);
            out.push('}');
            assert(out@ =~= old(out)@ + json_of(*v));
        },
    }
}

/// Appends the serialized elements of `items` from position `i` on.
fn write_json_items(items: &Vec<JsonValue>, i: usize, out: &mut Vec<char>)
    requires
        i <= items@.len(),
    ensures
        final(out)@ == old(out)@ + json_items(items@, i as int),
    decreases items@, items@.len() - i,
{
    if i < items.len() {
        write_json(&items[i], out);
        if i + 1 < items.len() {
            out.push(',');
            write_json_items(items, i + 1, out);
            assert(out@ =~= old(out)@ + json_items(items@, i as int));
        }
    }
}

/// Appends the serialized members of `fields` from position `i` on.
fn write_json_fields(fields: &Vec<(String, JsonValue)>, i: usize, out: &mut Vec<char>)
    requires
        i <= fields@.len(),
    ensures
        final(out)@ == old(out)@ + json_fields(fields@, i as int),
    decreases fields@, fields@.len() - i,
{
    if i < fields.len() {
        write_json_string(fields[i].0.as_str(), out);
        out.push(':');
        write_json(&fields[i].1, out);
        if i + 1 < fields.len() {
            out.push(',');
            write_json_fields(fields, i + 1, out);
        }
        assert(out@ =~= old(out)@ + json_fields(fields@, i as int));
    }
}

/// The serialized form of `v` as a string.
pub fn to_json_string(v: &JsonValue) -> (r: String)
    ensures
        r@ == json_of(*v),
{
    let mut out: Vec<char> = Vec::new();
    write_json(v, &mut out);
    chars_to_string(&out)
}

} // verus!
