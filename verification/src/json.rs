use vstd::prelude::*;
use crate::ids::hex_digits;

verus! {

/// How one character of a text is written inside a JSON string: quotes and
/// backslashes are escaped, the control characters with a short escape use
/// it, the other control characters are written as `\u00` and two lower-case
/// hexadecimal digits, and every other character stands as it is.
pub open spec fn json_escape_char(c: char) -> Seq<char> {
    let n = c as u32;
    if c == '"' {
        seq!['\\', '"']
    } else if c == '\\' {
        seq!['\\', '\\']
    } else if n == 8 {
        seq!['\\', 'b']
    } else if n == 9 {
        seq!['\\', 't']
    } else if n == 10 {
        seq!['\\', 'n']
    } else if n == 12 {
        seq!['\\', 'f']
    } else if n == 13 {
        seq!['\\', 'r']
    } else if n < 0x20 {
        seq!['\\', 'u', '0', '0'] + hex_digits(n as nat, 2)
    } else {
        seq![c]
    }
}

/// The characters of a text, each escaped as in a JSON string.
pub open spec fn json_escaped(s: Seq<char>) -> Seq<char>
    decreases s.len(),
{
    if s.len() == 0 {
        Seq::empty()
    } else {
        json_escaped(s.drop_last()) + json_escape_char(s.last())
    }
}

/// The JSON string that holds a text: the escaped text in double quotes.
pub open spec fn json_string_text(s: Seq<char>) -> Seq<char> {
    seq!['"'] + json_escaped(s) + seq!['"']
}

/// Writes a text as a JSON string with `serde_json::to_string`, which puts
/// the text in double quotes and escapes it character by character as
/// `json_escape_char` says (its escape table in `ser.rs`); writing a string
/// into memory does not fail.
#[verifier::external_body]
pub(crate) fn json_string(s: &str) -> (r: String)
    ensures
        r@ == json_string_text(s@),
{
    match serde_json::to_string(s) {
        Ok(t) => t,
        Err(_) => String::new(),
    }
}

} // verus!
