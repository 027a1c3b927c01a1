//! JSON string literals, as `serde_json` writes them.

use vstd::prelude::*;

verus! {

/// The lowercase hexadecimal digit for `value`.
pub open spec fn hex_digit(value: nat) -> char
    recommends
        value < 16,
{
    if value < 10 {
        (48 + value) as u8 as char
    } else {
        (87 + value) as u8 as char
    }
}

/// What stands for the character `c` inside a JSON string literal: a short
/// escape for the quote, the backslash, backspace, tab, line feed, form feed
/// and carriage return; `\u00` and two hexadecimal digits for any other
/// control character below the space; the character itself otherwise.
pub open spec fn escaped(c: char) -> Seq<char> {
    if c == '"' {
        seq!['\\', '"']
    } else if c == '\\' {
        seq!['\\', '\\']
    } else if c == '\u{8}' {
        seq!['\\', 'b']
    } else if c == '\t' {
        seq!['\\', 't']
    } else if c == '\n' {
        seq!['\\', 'n']
    } else if c == '\u{c}' {
        seq!['\\', 'f']
    } else if c == '\r' {
        seq!['\\', 'r']
    } else if (c as nat) < 0x20 {
        seq!['\\', 'u', '0', '0', hex_digit(c as nat / 16), hex_digit(c as nat % 16)]
    } else {
        seq![c]
    }
}

/// The characters of `text`, each as it stands inside a JSON string literal.
pub open spec fn escaped_text(text: Seq<char>) -> Seq<char>
    decreases text.len(),
{
    if text.len() == 0 {
        Seq::empty()
    } else {
        escaped_text(text.drop_last()) + escaped(text.last())
    }
}

/// The JSON string literal for `text`: its characters, escaped, between two
/// quotes.
pub open spec fn json_string_literal(text: Seq<char>) -> Seq<char> {
    seq!['"'] + escaped_text(text) + seq!['"']
}

/// Whether `c` stands for itself inside a JSON string literal.
pub open spec fn stands_for_itself(c: char) -> bool {
    c != '"' && c != '\\' && (c as nat) >= 0x20
}

/// A text without quotes, backslashes and control characters is written
/// between the two quotes as it is.
pub proof fn lemma_plain_text_is_quoted(text: Seq<char>)
    requires
        forall|i: int| 0 <= i < text.len() ==> stands_for_itself(#[trigger] text[i]),
    ensures
        escaped_text(text) == text,
        json_string_literal(text) == seq!['"'] + text + seq!['"'],
    decreases text.len(),
{
    if text.len() > 0 {
        lemma_plain_text_is_quoted(text.drop_last());
        assert(stands_for_itself(text.last()));
        assert(text.drop_last() + seq![text.last()] == text);
    }
}

/// Calls `serde_json::to_string` on a string slice.
///
/// Trusted: the result is the JSON string literal for `text`, with the
/// escapes of `serde_json`'s compact formatter, which `escaped` states
/// character by character. Serialising a string slice into memory has no
/// failing path in `serde_json`: the only error it can report there is one
/// of the writer, and the writer is a `Vec`.
#[verifier::external_body]
pub(crate) fn quote(text: &str) -> (literal: String)
    ensures
        literal@ == json_string_literal(text@),
{
    match serde_json::to_string(text) {
        Ok(literal) => literal,
        Err(_) => String::new(),
    }
}

} // verus!
