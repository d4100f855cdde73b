//! Bytes to text: standard Base64 with padding, and strict UTF-8 decoding.
use vstd::prelude::*;
use vstd::utf8::{decode_utf8, valid_utf8};

verus! {

/// The character of a six-bit value in the standard Base64 alphabet.
pub open spec fn b64_char(v: int) -> char {
    if v < 26 {
        (65 + v) as char
    } else if v < 52 {
        (97 + v - 26) as char
    } else if v < 62 {
        (48 + v - 52) as char
    } else if v == 62 {
        '+'
    } else {
        '/'
    }
}

/// The four characters of a group of three bytes taken as one 24-bit number.
pub open spec fn b64_quad(n: int) -> Seq<char> {
    seq![b64_char(n / 262144), b64_char((n / 4096) % 64), b64_char((n / 64) % 64), b64_char(n % 64)]
}

/// Standard Base64 with `=` padding: each group of three bytes becomes four
/// characters; a last group of one or two bytes is padded to four.
pub open spec fn base64_seq(bytes: Seq<u8>) -> Seq<char>
    decreases bytes.len(),
{
    if bytes.len() == 0 {
        Seq::empty()
    } else if bytes.len() == 1 {
        let q = b64_quad(bytes[0] as int * 65536);
        seq![q[0], q[1], '=', '=']
    } else if bytes.len() == 2 {
        let q = b64_quad(bytes[0] as int * 65536 + bytes[1] as int * 256);
        seq![q[0], q[1], q[2], '=']
    } else {
        b64_quad(bytes[0] as int * 65536 + bytes[1] as int * 256 + bytes[2] as int) + base64_seq(
            bytes.skip(3),
        )
    }
}

/// The length of the Base64 text of `n` bytes; `encode` panics where it does
/// not fit in `usize`.
pub open spec fn base64_len(n: nat) -> int {
    n / 3 * 4 + if n % 3 == 0 {
        0int
    } else {
        4int
    }
}

/// Calls `base64::Engine::encode` on the `STANDARD` engine (standard
/// alphabet, with padding); the contract states that encoding.
#[verifier::external_body]
pub(crate) fn base64_encode(bytes: &[u8]) -> (r: String)
    requires
        base64_len(bytes@.len()) <= usize::MAX,
    ensures
        r@ == base64_seq(bytes@),
{
    base64::Engine::encode(&base64::engine::general_purpose::STANDARD, bytes)
}

/// Calls `String::from_utf8`, which succeeds exactly on valid UTF-8 and then
/// holds the decoded characters.
#[verifier::external_body]
pub(crate) fn decode_text(bytes: Vec<u8>) -> (r: Option<String>)
    ensures
        match r {
            Some(s) => valid_utf8(bytes@) && s@ == decode_utf8(bytes@),
            None => !valid_utf8(bytes@),
        },
{
    match String::from_utf8(bytes) {
        Ok(s) => Some(s),
        Err(_) => None,
    }
}

/// A lowercase hexadecimal digit.
pub open spec fn hex_lower(d: int) -> char {
    if d < 10 {
        (48 + d) as char
    } else {
        (87 + d) as char
    }
}

/// How a character is written inside a JSON string: `"` and `\` escaped,
/// the short escapes for backspace, tab, newline, form feed and carriage
/// return, `\u00XX` for the other control characters, anything else as
/// it is.
pub open spec fn json_escape(c: char) -> Seq<char> {
    if c == '"' {
        seq!['\\', '"']
    } else if c == '\\' {
        seq!['\\', '\\']
    } else if c == '\u{8}' {
        seq!['\\', 'b']
    } else if c == '\t' {
        seq!['\\', 't']
    } else if c == '\n' {
        seq!['\\', 'n']
    } else if c == '\u{c}' {
        seq!['\\', 'f']
    } else if c == '\r' {
        seq!['\\', 'r']
    } else if (c as int) < 32 {
        seq!['\\', 'u', '0', '0', hex_lower((c as int) / 16), hex_lower((c as int) % 16)]
    } else {
        seq![c]
    }
}

/// The characters of `s`, each written by `json_escape`.
pub open spec fn json_escaped(s: Seq<char>) -> Seq<char>
    decreases s.len(),
{
    if s.len() == 0 {
        Seq::empty()
    } else {
        json_escaped(s.drop_last()) + json_escape(s.last())
    }
}

/// `s` as a JSON string literal.
pub open spec fn json_quoted(s: Seq<char>) -> Seq<char> {
    seq!['"'] + json_escaped(s) + seq!['"']
}

/// Calls `serde_json::to_string` on a string, which writes it as a JSON
/// string literal with the escapes of `json_escape`; writing into memory
/// does not fail.
#[verifier::external_body]
pub(crate) fn json_quote(s: &str) -> (r: String)
    ensures
        r@ == json_quoted(s@),
{
    match serde_json::to_string(s) {
        Ok(t) => t,
        Err(_) => String::new(),
    }
}

} // verus!
