//! The calls into `serde_json` that the codec makes. Each reads a JSON text
//! and hands back plain values: the members of an object as their names and
//! raw texts, and the scalar a text holds. What each returns depends on the
//! text alone, and is named here.

use std::collections::BTreeMap;
use serde_json::value::RawValue;
use vstd::prelude::*;

verus! {

/// The members of a JSON object text, in the map's order, each as its name
/// and its value's raw JSON text; `None` when the text is not one object.
pub uninterp spec fn json_members(text: Seq<char>) -> Option<Seq<(Seq<char>, Seq<char>)>>;

/// The string a JSON text denotes, if it is a JSON string.
pub uninterp spec fn json_string_value(text: Seq<char>) -> Option<Seq<char>>;

/// The integer a JSON text denotes, if it is one that fits in `u64`.
pub uninterp spec fn json_u64_value(text: Seq<char>) -> Option<u64>;

/// The integer a JSON text denotes, if it is one that fits in `i64`.
pub uninterp spec fn json_i64_value(text: Seq<char>) -> Option<i64>;

/// JSON's whitespace.
pub open spec fn json_space(c: char) -> bool {
    c == ' ' || c == '\t' || c == '\n' || c == '\r'
}

/// Whether a JSON text is `null`, with only JSON whitespace around it.
pub open spec fn json_is_null(text: Seq<char>) -> bool {
    exists|a: int|
        0 <= a && a + 4 <= text.len() && #[trigger] text.subrange(a, a + 4) == "null"@ && (forall|i: int|
            0 <= i < a ==> json_space(#[trigger] text[i])) && (forall|i: int|
            a + 4 <= i < text.len() ==> json_space(#[trigger] text[i]))
}

/// The lowercase hexadecimal digit for `d` (below sixteen).
pub open spec fn hex_digit(d: nat) -> char {
    if d == 0 { '0' } else if d == 1 { '1' } else if d == 2 { '2' } else if d == 3 { '3' } else if d == 4 { '4' } else if d == 5 { '5' } else if d == 6 { '6' } else if d == 7 { '7' } else if d == 8 { '8' } else if d == 9 { '9' } else if d == 10 { 'a' } else if d == 11 { 'b' } else if d == 12 { 'c' } else if d == 13 { 'd' } else if d == 14 { 'e' } else { 'f' }
}

/// How `serde_json` writes one character inside a string literal: quote and
/// backslash escaped, the short escapes for backspace, tab, newline, form
/// feed and carriage return, `\u00XX` for the other control characters.
pub open spec fn escaped_char(c: char) -> Seq<char> {
    if c == '"' {
        seq!['\\', '"']
    } else if c == '\\' {
        seq!['\\', '\\']
    } else if c == '\u{8}' {
        seq!['\\', 'b']
    } else if c == '\t' {
        seq!['\\', 't']
    } else if c == '\n' {
        seq!['\\', 'n']
    } else if c == '\u{c}' {
        seq!['\\', 'f']
    } else if c == '\r' {
        seq!['\\', 'r']
    } else if (c as u32) < 0x20 {
        seq!['\\', 'u', '0', '0', hex_digit((c as u32 / 16) as nat), hex_digit((c as u32 % 16) as nat)]
    } else {
        seq![c]
    }
}

/// The characters of a string, escaped.
pub open spec fn escaped(s: Seq<char>) -> Seq<char>
    decreases s.len(),
{
    if s.len() == 0 { Seq::empty() } else { escaped(s.drop_last()) + escaped_char(s.last()) }
}

/// The JSON string literal of a text.
pub open spec fn json_quoted(s: Seq<char>) -> Seq<char> {
    seq!['"'] + escaped(s) + seq!['"']
}

/// Relies on `serde_json::from_str` into a map of raw values: the members of
/// a JSON object, names and raw texts; a map holds each name once.
#[verifier::external_body]
pub fn object_members(text: &str) -> (r: Option<Vec<(String, String)>>)
    ensures
        r is Some == json_members(text@) is Some,
        r matches Some(ms) ==> ms@.len() == json_members(text@)->Some_0.len() && forall|i: int|
            0 <= i < ms@.len() ==> (#[trigger] ms@[i]).0@ == json_members(text@)->Some_0[i].0
                && ms@[i].1@ == json_members(text@)->Some_0[i].1,
        r matches Some(ms) ==> forall|i: int, j: int|
            0 <= i < j < ms.len() ==> (#[trigger] ms@[i]).0@ != (#[trigger] ms@[j]).0@,
{
    serde_json::from_str::<BTreeMap<String, Box<RawValue>>>(text)
        .ok()
        .map(|m| m.into_iter().map(|(k, v)| (k, v.get().to_string())).collect())
}

/// Relies on `serde_json::from_str::<String>`: the string a JSON string
/// literal denotes.
#[verifier::external_body]
pub fn string_value(text: &str) -> (r: Option<String>)
    ensures
        match r {
            Some(s) => json_string_value(text@) == Some(s@),
            None => json_string_value(text@) is None,
        },
{
    serde_json::from_str::<String>(text).ok()
}

/// Relies on `serde_json::from_str::<u64>`.
#[verifier::external_body]
pub fn u64_value(text: &str) -> (r: Option<u64>)
    ensures
        r == json_u64_value(text@),
{
    serde_json::from_str::<u64>(text).ok()
}

/// Relies on `serde_json::from_str::<i64>`.
#[verifier::external_body]
pub fn i64_value(text: &str) -> (r: Option<i64>)
    ensures
        r == json_i64_value(text@),
{
    serde_json::from_str::<i64>(text).ok()
}

/// Relies on `serde_json::from_str::<()>`, which reads exactly `null`,
/// skipping JSON whitespace before and after it.
#[verifier::external_body]
pub fn null_value(text: &str) -> (r: bool)
    ensures
        r == json_is_null(text@),
{
    serde_json::from_str::<()>(text).is_ok()
}

/// Relies on `serde_json::to_string` on a string slice: the quoted, escaped
/// literal. Writing a `&str` into a `String` does not fail.
#[verifier::external_body]
pub fn quote(s: &str) -> (r: String)
    ensures
        r@ == json_quoted(s@),
{
    match serde_json::to_string(s) {
        Ok(t) => t,
        Err(_) => String::new(),
    }
}

} // verus!
