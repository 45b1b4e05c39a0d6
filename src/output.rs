//! The JSON document that carries the two times.
use crate::text::{chars_of, string_of};
use vstd::prelude::*;

verus! {

#[verifier::external_type_specification]
#[verifier::external_body]
pub struct ExJsonError(serde_json::Error);

/// The lowercase hexadecimal digit of `n`, for `n < 16`.
pub open spec fn hex_digit(n: u32) -> char {
    seq!['0', '1', '2', '3', '4', '5', '6', '7', '8', '9', 'a', 'b', 'c', 'd', 'e', 'f'][n as int]
}

/// How one character is written inside a JSON string literal: a quote and a
/// backslash get a backslash before them, backspace, form feed, newline,
/// carriage return and tab get their short escapes, any other character
/// below U+0020 becomes `\u00` and two hex digits, and every other character
/// stands as it is.
pub open spec fn json_escape(c: char) -> Seq<char> {
    let u = c as u32;
    if c == '"' {
        seq!['\\', '"']
    } else if c == '\\' {
        seq!['\\', '\\']
    } else if u == 0x08 {
        seq!['\\', 'b']
    } else if u == 0x0C {
        seq!['\\', 'f']
    } else if c == '\n' {
        seq!['\\', 'n']
    } else if c == '\r' {
        seq!['\\', 'r']
    } else if c == '\t' {
        seq!['\\', 't']
    } else if u < 0x20 {
        seq!['\\', 'u', '0', '0', hex_digit(u / 16), hex_digit(u % 16)]
    } else {
        seq![c]
    }
}

/// The characters of `s`, each written as [`json_escape`] says.
pub open spec fn json_escaped(s: Seq<char>) -> Seq<char>
    decreases s.len(),
{
    if s.len() == 0 {
        seq![]
    } else {
        json_escaped(s.drop_last()) + json_escape(s.last())
    }
}

/// The JSON string literal of a text: its escaped characters between quotes.
pub open spec fn json_string(s: Seq<char>) -> Seq<char> {
    seq!['"'] + json_escaped(s) + seq!['"']
}

/// Relies on `serde_json::to_string` on a `str`: it writes the text as a
/// JSON string literal, quotes and escapes included, into a `Vec<u8>`, which
/// never fails.
#[verifier::external_body]
fn quote_json(s: &str) -> (r: Result<String, serde_json::Error>)
    ensures
        r is Ok,
        r matches Ok(t) ==> t@ == json_string(s@),
{
    serde_json::to_string(s)
}

/// The output document around two JSON string literals.
pub open spec fn day_document(start: Seq<char>, end: Seq<char>) -> Seq<char> {
    "{\"day_start\":"@ + start + ",\"day_end\":"@ + end + "}"@
}

/// The serializer could not write a text as JSON.
#[derive(Debug, PartialEq, Eq, Structural)]
pub struct JsonError;

fn push_str(v: &mut Vec<char>, s: &str)
    ensures
        final(v)@ == old(v)@ + s@,
{
    let mut more = chars_of(s);
    v.append(&mut more);
}

/// The document `{"day_start":START,"day_end":END}`, where `start_json` and
/// `end_json` are JSON string literals.
pub fn frame_day_json(start_json: &str, end_json: &str) -> (r: String)
    ensures
        r@ == day_document(start_json@, end_json@),
{
    let mut doc: Vec<char> = Vec::new();
    push_str(&mut doc, "{\"day_start\":");
    push_str(&mut doc, start_json);
    push_str(&mut doc, ",\"day_end\":");
    push_str(&mut doc, end_json);
    push_str(&mut doc, "}");
    string_of(&doc)
}

/// The compact JSON document `{"day_start": ..., "day_end": ...}` that
/// carries the sunrise and sunset texts.
pub fn day_json(day_start: &str, day_end: &str) -> (r: Result<String, JsonError>)
    ensures
        r is Ok,
        r matches Ok(doc) ==> doc@ == day_document(json_string(day_start@), json_string(day_end@)),
{
    let start = match quote_json(day_start) {
        Ok(t) => t,
        Err(_) => return Err(JsonError),
    };
    let end = match quote_json(day_end) {
        Ok(t) => t,
        Err(_) => return Err(JsonError),
    };
    Ok(frame_day_json(start.as_str(), end.as_str()))
}

} // verus!
