//! Request bodies framed by the library around JSON values encoded by
//! `serde_json`.

use vstd::prelude::*;
use vstd::string::*;
use crate::error::JulesError;

verus! {

/// The lowercase hexadecimal digit of `n`, for `n` below 16.
pub open spec fn hex_digit(n: int) -> char {
    "0123456789abcdef"@[n]
}

/// How a JSON string writes the character `c`: quote and backslash after a
/// backslash; backspace, tab, line feed, form feed and carriage return as
/// `\b`, `\t`, `\n`, `\f`, `\r`; any other character below U+0020 as
/// `\u00` and two lowercase hexadecimal digits; every other character as
/// itself.
pub open spec fn json_escape(c: char) -> Seq<char> {
    let n = c as int;
    if c == '"' {
        seq!['\\', '"']
    } else if c == '\\' {
        seq!['\\', '\\']
    } else if n == 0x08 {
        seq!['\\', 'b']
    } else if n == 0x09 {
        seq!['\\', 't']
    } else if n == 0x0A {
        seq!['\\', 'n']
    } else if n == 0x0C {
        seq!['\\', 'f']
    } else if n == 0x0D {
        seq!['\\', 'r']
    } else if n < 0x20 {
        seq!['\\', 'u', '0', '0', hex_digit(n / 16), hex_digit(n % 16)]
    } else {
        seq![c]
    }
}

/// The characters of `s`, each written as a JSON string writes it.
pub open spec fn json_escaped(s: Seq<char>) -> Seq<char>
    decreases s.len(),
{
    if s.len() == 0 {
        seq![]
    } else {
        json_escape(s[0]) + json_escaped(s.drop_first())
    }
}

/// The JSON string literal of `s`: its escaped characters between quotes.
pub open spec fn json_string(s: Seq<char>) -> Seq<char> {
    seq!['"'] + json_escaped(s) + seq!['"']
}

/// Relies on `serde_json::to_string` applied to a `str`: it writes the
/// string between quotes with the escapes of `json_escape` into a `Vec`,
/// which cannot fail.
#[verifier::external_body]
pub(crate) fn to_json_string(s: &str) -> (r: Result<String, serde_json::Error>)
    ensures
        r is Ok,
        r matches Ok(t) ==> t@ == json_string(s@),
{
    serde_json::to_string(s)
}

/// The body of a message sent to a session: an object whose one member
/// `prompt` holds the message.
pub open spec fn message_body(prompt: Seq<char>) -> Seq<char> {
    "{\"prompt\":"@ + json_string(prompt) + "}"@
}

/// The body of a plan approval: an empty object.
pub open spec fn approval_body() -> Seq<char> {
    "{}"@
}

/// Frames the body of a message around `quoted`, the JSON text of the
/// prompt: `{"prompt":` then `quoted` then `}`.
pub fn frame_message(quoted: &str) -> (r: String)
    ensures
        r@ == "{\"prompt\":"@ + quoted@ + "}"@,
{
    let mut body = String::from_str("{\"prompt\":");
    body.append(quoted);
    body.append("}");
    body
}

/// Encodes the body of a message sent to a session; encoding a string
/// always succeeds.
pub fn encode_message(prompt: &str) -> (r: Result<String, JulesError>)
    ensures
        r matches Ok(t) && t@ == message_body(prompt@),
{
    match to_json_string(prompt) {
        Ok(quoted) => Ok(frame_message(quoted.as_str())),
        Err(e) => Err(JulesError::Serialization(e)),
    }
}

} // verus!
