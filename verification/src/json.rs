//! JSON text, written by `serde_json`.
//!
//! Printing strings and numbers is `serde_json`'s work and is not proved here.
//! This module says what is printed, and the two functions at its end are the
//! only ones in the crate whose contracts Verus takes on trust.

use vstd::prelude::*;

verus! {

/// The lower-case hexadecimal digit of `n`, for `n` below sixteen.
pub open spec fn hex_digit(n: int) -> char {
    "0123456789abcdef"@[n]
}

/// How one character stands inside a JSON string literal: the quotation mark,
/// the backslash and the control characters below U+0020 are escaped, the
/// control characters by their short form where JSON has one and by `\u00XX`
/// otherwise; every other character stands for itself.
pub open spec fn escaped(c: char) -> Seq<char> {
    if c == '"' {
        seq!['\\', '"']
    } else if c == '\\' {
        seq!['\\', '\\']
    } else if c == '\u{8}' {
        seq!['\\', 'b']
    } else if c == '\t' {
        seq!['\\', 't']
    } else if c == '\n' {
        seq!['\\', 'n']
    } else if c == '\u{c}' {
        seq!['\\', 'f']
    } else if c == '\r' {
        seq!['\\', 'r']
    } else if (c as u32) < 0x20 {
        seq!['\\', 'u', '0', '0', hex_digit(c as int / 16), hex_digit(c as int % 16)]
    } else {
        seq![c]
    }
}

/// The characters of `text`, each one escaped.
pub open spec fn escaped_text(text: Seq<char>) -> Seq<char>
    decreases text.len(),
{
    if text.len() == 0 {
        Seq::empty()
    } else {
        escaped_text(text.drop_last()) + escaped(text.last())
    }
}

/// The JSON string literal for `text`: its escaped characters between
/// quotation marks.
pub open spec fn json_string(text: Seq<char>) -> Seq<char> {
    seq!['"'] + escaped_text(text) + seq!['"']
}

/// The decimal digit of `d`, for `d` below ten.
pub open spec fn decimal_digit(d: nat) -> char {
    "0123456789"@[d as int]
}

/// The JSON number literal for `n`: its decimal digits, most significant
/// first, without leading zeros.
pub open spec fn json_number(n: nat) -> Seq<char>
    decreases n,
{
    if n < 10 {
        seq![decimal_digit(n)]
    } else {
        json_number(n / 10).push(decimal_digit(n % 10))
    }
}

/// Whether `c` stands for itself in a JSON string literal.
pub open spec fn plain(c: char) -> bool {
    c != '"' && c != '\\' && (c as u32) >= 0x20
}

/// A text without quotation marks, backslashes and control characters is
/// written as it is.
pub proof fn lemma_plain_text_is_unescaped(text: Seq<char>)
    requires
        forall|i: int| 0 <= i < text.len() ==> plain(#[trigger] text[i]),
    ensures
        escaped_text(text) == text,
        json_string(text) == seq!['"'] + text + seq!['"'],
    decreases text.len(),
{
    if text.len() > 0 {
        lemma_plain_text_is_unescaped(text.drop_last());
        assert(plain(text.last()));
        assert(escaped(text.last()) == seq![text.last()]);
        assert(text.drop_last() + seq![text.last()] =~= text);
    } else {
        assert(text =~= Seq::empty());
    }
}

/// Writes `text` as a JSON string literal with `serde_json::to_string`.
///
/// Trusted: that the call succeeds, since a string always serialises and the
/// output is written to memory, and that the literal is [`json_string`] of the
/// text, which restates `serde_json`'s escape table. None of `serde_json`'s
/// features changes how a string is written.
#[verifier::external_body]
pub(crate) fn string_literal(text: &str) -> (literal: Option<String>)
    ensures
        literal is Some,
        literal.unwrap()@ == json_string(text@),
{
    serde_json::to_string(text).ok()
}

/// Writes `n` as a JSON number literal with `serde_json::to_string`.
///
/// Trusted: that the call succeeds, for the same reason, and that the literal
/// is [`json_number`] of `n`: `serde_json` prints an unsigned integer in
/// decimal, whatever its features.
#[verifier::external_body]
pub(crate) fn number_literal(n: u64) -> (literal: Option<String>)
    ensures
        literal is Some,
        literal.unwrap()@ == json_number(n as nat),
{
    serde_json::to_string(&n).ok()
}

} // verus!
