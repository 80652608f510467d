//! Character classes of the language.
//!
//! Every class is ASCII only: a character outside ASCII belongs to none of
//! them, apart from the two "anything but" classes used for comments and
//! double-quoted strings.

use vstd::prelude::*;

verus! {

/// Insignificant characters between tokens: tab, carriage return, form feed,
/// space and newline.
pub open spec fn spec_is_blank(c: char) -> bool {
    c == '\t' || c == '\r' || c == '\u{c}' || c == ' ' || c == '\n'
}

/// ASCII letters.
pub open spec fn spec_is_alpha(c: char) -> bool {
    ('a' <= c && c <= 'z') || ('A' <= c && c <= 'Z')
}

/// ASCII decimal digits.
pub open spec fn spec_is_digit(c: char) -> bool {
    '0' <= c && c <= '9'
}

/// ASCII hexadecimal digits, in either case.
pub open spec fn spec_is_hex_digit(c: char) -> bool {
    spec_is_digit(c) || ('a' <= c && c <= 'f') || ('A' <= c && c <= 'F')
}

/// Characters that may begin an identifier or a keyword.
pub open spec fn spec_is_word_start(c: char) -> bool {
    spec_is_alpha(c) || c == '_'
}

/// Characters that may continue an identifier or a keyword.
pub open spec fn spec_is_word_part(c: char) -> bool {
    spec_is_alpha(c) || spec_is_digit(c) || c == '_'
}

/// Characters that may follow a backslash inside a single-quoted string.
pub open spec fn spec_is_escape(c: char) -> bool {
    c == 'n' || c == 't' || c == 'v' || c == 'r' || c == '\'' || c == '"' || c == 'b' || c == '\\'
}

/// Numeric value of a hexadecimal digit.
pub open spec fn spec_digit_value(c: char) -> int
    recommends
        spec_is_hex_digit(c),
{
    if spec_is_digit(c) {
        c as int - '0' as int
    } else if 'a' <= c && c <= 'f' {
        c as int - 'a' as int + 10
    } else {
        c as int - 'A' as int + 10
    }
}

/// A set of characters that a scanning loop consumes one run of.
#[derive(Debug, PartialEq, Eq, Clone, Copy)]
pub enum CharClass {
    /// Letters, digits and underscore.
    Word,
    /// Decimal digits.
    Digit,
    /// Hexadecimal digits.
    HexDigit,
    /// Anything but a newline: the body of a line comment.
    Comment,
    /// Anything but a double quote: the body of a double-quoted string.
    Quoted,
}

impl CharClass {
    /// Whether `c` is a member of the class.
    pub open spec fn spec_contains(self, c: char) -> bool {
        match self {
            CharClass::Word => spec_is_word_part(c),
            CharClass::Digit => spec_is_digit(c),
            CharClass::HexDigit => spec_is_hex_digit(c),
            CharClass::Comment => c != '\n',
            CharClass::Quoted => c != '"',
        }
    }

    #[verifier::when_used_as_spec(spec_contains)]
    pub fn contains(self, c: char) -> (b: bool)
        ensures
            b == self.spec_contains(c),
    {
        match self {
            CharClass::Word => is_word_part(c),
            CharClass::Digit => is_digit(c),
            CharClass::HexDigit => is_hex_digit(c),
            CharClass::Comment => c != '\n',
            CharClass::Quoted => c != '"',
        }
    }
}

#[verifier::when_used_as_spec(spec_is_blank)]
pub fn is_blank(c: char) -> (b: bool)
    ensures
        b == spec_is_blank(c),
{
    c == '\t' || c == '\r' || c == '\u{c}' || c == ' ' || c == '\n'
}

#[verifier::when_used_as_spec(spec_is_alpha)]
pub fn is_alpha(c: char) -> (b: bool)
    ensures
        b == spec_is_alpha(c),
{
    ('a' <= c && c <= 'z') || ('A' <= c && c <= 'Z')
}

#[verifier::when_used_as_spec(spec_is_digit)]
pub fn is_digit(c: char) -> (b: bool)
    ensures
        b == spec_is_digit(c),
{
    '0' <= c && c <= '9'
}

#[verifier::when_used_as_spec(spec_is_hex_digit)]
pub fn is_hex_digit(c: char) -> (b: bool)
    ensures
        b == spec_is_hex_digit(c),
{
    is_digit(c) || ('a' <= c && c <= 'f') || ('A' <= c && c <= 'F')
}

#[verifier::when_used_as_spec(spec_is_word_start)]
pub fn is_word_start(c: char) -> (b: bool)
    ensures
        b == spec_is_word_start(c),
{
    is_alpha(c) || c == '_'
}

#[verifier::when_used_as_spec(spec_is_word_part)]
pub fn is_word_part(c: char) -> (b: bool)
    ensures
        b == spec_is_word_part(c),
{
    is_alpha(c) || is_digit(c) || c == '_'
}

#[verifier::when_used_as_spec(spec_is_escape)]
pub fn is_escape(c: char) -> (b: bool)
    ensures
        b == spec_is_escape(c),
{
    c == 'n' || c == 't' || c == 'v' || c == 'r' || c == '\'' || c == '"' || c == 'b' || c == '\\'
}

/// Computes [`spec_digit_value`].
pub fn digit_value(c: char) -> (v: u32)
    requires
        is_hex_digit(c),
    ensures
        v == spec_digit_value(c),
        v < 16,
{
    let code: u32 = c as u32;
    if is_digit(c) {
        code - 0x30
    } else if 'a' <= c && c <= 'f' {
        code - 0x61 + 10
    } else {
        code - 0x41 + 10
    }
}

} // verus!
