//! What can go wrong while scanning a token.

use vstd::prelude::*;

verus! {

/// A scanning failure. Each variant names the offending character or text
/// where there is one. The scanner never recovers by itself: the caller
/// decides whether to stop or to go on asking for tokens.
#[derive(Debug, PartialEq, Eq, Clone, Copy)]
pub enum LexError<'a> {
    /// The input ended inside a string literal.
    UnterminatedString,
    /// Inside a single-quoted string a backslash is followed by this
    /// character, which is none of `n t v r ' " b \`.
    InvalidEscape(char),
    /// `>!` is followed by this instead of `<` (`None` at the end of input).
    ExpectedLt(Option<char>),
    /// This character starts no token.
    UnexpectedChar(char),
    /// The digits of a hexadecimal literal are followed by this character,
    /// which is neither a hexadecimal digit nor a space.
    InvalidHexDigit(char),
    /// `0x` is not followed by any hexadecimal digit.
    MissingHexDigits,
    /// A hexadecimal literal does not fit in an `i32`.
    HexOutOfRange,
    /// The digits of an octal literal are followed by this character, which
    /// is neither a digit nor a space.
    InvalidOctalDigit(char),
    /// The digits after a leading `0` are no octal number that fits in an
    /// `i32`: one of them is `8` or `9`, or the value is too large.
    InvalidOctal,
    /// A `0` is followed by this, which is neither `x` nor a digit (`None`
    /// at the end of input).
    BareZero(Option<char>),
    /// This run of decimal digits is too large for an `i32`.
    InvalidNumber(&'a str),
}

/// A [`LexError`] as a mathematical value: the text it may carry is a
/// sequence of characters.
pub enum LexErrorView {
    UnterminatedString,
    InvalidEscape(char),
    ExpectedLt(Option<char>),
    UnexpectedChar(char),
    InvalidHexDigit(char),
    MissingHexDigits,
    HexOutOfRange,
    InvalidOctalDigit(char),
    InvalidOctal,
    BareZero(Option<char>),
    InvalidNumber(Seq<char>),
}

impl<'a> View for LexError<'a> {
    type V = LexErrorView;

    open spec fn view(&self) -> LexErrorView {
        match *self {
            LexError::UnterminatedString => LexErrorView::UnterminatedString,
            LexError::InvalidEscape(c) => LexErrorView::InvalidEscape(c),
            LexError::ExpectedLt(found) => LexErrorView::ExpectedLt(found),
            LexError::UnexpectedChar(c) => LexErrorView::UnexpectedChar(c),
            LexError::InvalidHexDigit(c) => LexErrorView::InvalidHexDigit(c),
            LexError::MissingHexDigits => LexErrorView::MissingHexDigits,
            LexError::HexOutOfRange => LexErrorView::HexOutOfRange,
            LexError::InvalidOctalDigit(c) => LexErrorView::InvalidOctalDigit(c),
            LexError::InvalidOctal => LexErrorView::InvalidOctal,
            LexError::BareZero(found) => LexErrorView::BareZero(found),
            LexError::InvalidNumber(text) => LexErrorView::InvalidNumber(text@),
        }
    }
}

} // verus!
