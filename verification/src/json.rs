//! The calls into `serde_json` that the helpers make.
use vstd::prelude::*;


verus! {

/// `serde_json`'s error type, carried through opaque.
#[verifier::external_type_specification]
#[verifier::external_body]
pub struct ExJsonError(serde_json::Error);

/// The lowercase hexadecimal digit of `d` (below 16).
pub open spec fn hex_digit(d: int) -> char {
    if d < 10 {
        (48 + d) as char
    } else {
        (87 + d) as char
    }
}

/// How `serde_json` writes the character `c` inside a JSON string: `"` and `\`
/// behind a backslash, backspace, form feed, line feed, carriage return and tab
/// as `\b`, `\f`, `\n`, `\r`, `\t`, any other character below U+0020 as `\u00`
/// and two lowercase hex digits, every other character as it is.
pub open spec fn json_escape_char(c: char) -> Seq<char> {
    if c == '"' {
        seq!['\\', '"']
    } else if c == '\\' {
        seq!['\\', '\\']
    } else if c == '\u{8}' {
        seq!['\\', 'b']
    } else if c == '\u{c}' {
        seq!['\\', 'f']
    } else if c == '\n' {
        seq!['\\', 'n']
    } else if c == '\r' {
        seq!['\\', 'r']
    } else if c == '\t' {
        seq!['\\', 't']
    } else if (c as int) < 32 {
        seq!['\\', 'u', '0', '0', hex_digit((c as int) / 16), hex_digit((c as int) % 16)]
    } else {
        seq![c]
    }
}

/// The escaped characters of `s`, in order.
pub open spec fn json_escaped(s: Seq<char>) -> Seq<char>
    decreases s.len(),
{
    if s.len() == 0 {
        Seq::empty()
    } else {
        json_escaped(s.drop_last()) + json_escape_char(s.last())
    }
}

/// The JSON text that `serde_json` writes for the string `s`: its escaped
/// characters between double quotes.
pub open spec fn json_string_text(s: Seq<char>) -> Seq<char> {
    seq!['"'] + json_escaped(s) + seq!['"']
}

/// The string value stored under `key` at the top level of the JSON document
/// `text`, as `serde_json` reads it; `None` where `text` is not valid JSON, is not
/// an object, lacks `key`, or holds a value other than a string there.
pub uninterp spec fn json_string_member(text: Seq<char>, key: Seq<char>) -> Option<Seq<char>>;

/// Calls `serde_json::to_string` on the string slice `s`: it writes into a
/// `Vec`, which cannot fail, so the result is always the JSON string literal of
/// `s` (`json_string_text`).
#[verifier::external_body]
fn serde_to_string(s: &str) -> (r: Result<String, serde_json::Error>)
    ensures
        r is Ok,
        r->Ok_0@ == json_string_text(s@),
{
    serde_json::to_string(s)
}

/// Calls `serde_json::from_str` to read `text` as a `serde_json::Value`, then
/// `Value::get` for `key`; the result is the string stored there, if any
/// (`json_string_member`).
#[verifier::external_body]
pub(crate) fn json_string_member_of(text: &str, key: &str) -> (r: Option<String>)
    ensures
        match r {
            Some(s) => json_string_member(text@, key@) == Some(s@),
            None => json_string_member(text@, key@) is None,
        },
{
    match serde_json::from_str::<serde_json::Value>(text) {
        Ok(v) => match v.get(key) {
            Some(serde_json::Value::String(s)) => Some(s.clone()),
            _ => None,
        },
        Err(_) => None,
    }
}

/// The JSON string literal of `s`.
pub fn json_quote(s: &str) -> (r: String)
    ensures
        r@ == json_string_text(s@),
{
    match serde_to_string(s) {
        Ok(t) => t,
        Err(_) => {
            assert(false);
            String::new()
        },
    }
}

} // verus!
