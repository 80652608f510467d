//! The lexical grammar, as functions from a source text and a position to
//! the token that starts there and the position after it.
//!
//! The source is a sequence of characters and every position is an index
//! into it. [`scan`] is the meaning of one call of the scanner: everything
//! else in this file is a part of it.

use vstd::prelude::*;

use crate::chars::{is_blank, is_digit, is_escape, is_word_start, CharClass};
use crate::error::LexErrorView;
use crate::number::spec_parse_radix;
use crate::text::char_at;
use crate::token::{delimiter_kind, operator_kind, word_token, TokenType, TokenView};

verus! {

/// The outcome of scanning one token: the token or the failure, and where
/// the cursor stands afterwards.
pub struct Scan {
    pub result: Result<TokenView, LexErrorView>,
    pub end: int,
}

impl Scan {
    pub open spec fn token(token: TokenView, end: int) -> Scan {
        Scan { result: Ok(token), end }
    }

    pub open spec fn error(error: LexErrorView, end: int) -> Scan {
        Scan { result: Err(error), end }
    }
}

/// The first position at or after `i` whose character is not in `class`;
/// the length of the source if there is none.
pub open spec fn run_end(src: Seq<char>, class: CharClass, i: int) -> int
    decreases src.len() - i,
{
    if 0 <= i < src.len() && class.contains(src[i]) {
        run_end(src, class, i + 1)
    } else {
        i
    }
}

/// Where a line comment that covers position `i` ends: just after the next
/// newline, or at the end of the source.
pub open spec fn line_end(src: Seq<char>, i: int) -> int {
    let newline = run_end(src, CharClass::Comment, i);
    if newline < src.len() {
        newline + 1
    } else {
        newline
    }
}

/// The first position at or after `i` that is neither blank nor inside a
/// `#` comment; the length of the source if there is none.
pub open spec fn skip_trivia(src: Seq<char>, i: int) -> int
    decreases src.len() - i,
    via skip_trivia_decreases
{
    if i < 0 || i >= src.len() {
        i
    } else if src[i] == '#' {
        skip_trivia(src, line_end(src, i))
    } else if is_blank(src[i]) {
        skip_trivia(src, i + 1)
    } else {
        i
    }
}

#[via_fn]
proof fn skip_trivia_decreases(src: Seq<char>, i: int) {
    if 0 <= i < src.len() && src[i] == '#' {
        lemma_run_end_bounds(src, CharClass::Comment, i + 1);
    }
}

/// A run ends at or after its start, and inside the source.
pub proof fn lemma_run_end_bounds(src: Seq<char>, class: CharClass, i: int)
    requires
        0 <= i <= src.len(),
    ensures
        i <= run_end(src, class, i) <= src.len(),
    decreases src.len() - i,
{
    if i < src.len() && class.contains(src[i]) {
        lemma_run_end_bounds(src, class, i + 1);
    }
}

/// Every character of a run belongs to the class, and the character after
/// the run, if there is one, does not.
pub proof fn lemma_run_end_members(src: Seq<char>, class: CharClass, i: int)
    requires
        0 <= i <= src.len(),
    ensures
        forall|j: int| i <= j < run_end(src, class, i) ==> class.contains(#[trigger] src[j]),
        run_end(src, class, i) < src.len() ==> !class.contains(src[run_end(src, class, i)]),
    decreases src.len() - i,
{
    if i < src.len() && class.contains(src[i]) {
        lemma_run_end_members(src, class, i + 1);
    }
}

/// A run is known by its members: if every character from `i` up to `end`
/// belongs to the class and the one at `end` does not, the run from `i` ends
/// at `end`.
pub proof fn lemma_run_end_is(src: Seq<char>, class: CharClass, i: int, end: int)
    requires
        0 <= i <= end <= src.len(),
        forall|j: int| i <= j < end ==> class.contains(#[trigger] src[j]),
        end < src.len() ==> !class.contains(src[end]),
    ensures
        run_end(src, class, i) == end,
    decreases end - i,
{
    if i < end {
        lemma_run_end_is(src, class, i + 1, end);
    }
}

/// Passing over blanks and comments ends at or after its start, and inside
/// the source, on a character that is neither blank nor `#`.
pub proof fn lemma_skip_trivia_bounds(src: Seq<char>, i: int)
    requires
        0 <= i <= src.len(),
    ensures
        i <= skip_trivia(src, i) <= src.len(),
        skip_trivia(src, i) < src.len() ==> !is_blank(src[skip_trivia(src, i)]) && src[skip_trivia(
            src,
            i,
        )] != '#',
        skip_trivia(src, skip_trivia(src, i)) == skip_trivia(src, i),
    decreases src.len() - i,
{
    if i < src.len() {
        if src[i] == '#' {
            lemma_run_end_bounds(src, CharClass::Comment, i + 1);
            lemma_skip_trivia_bounds(src, line_end(src, i));
        } else if is_blank(src[i]) {
            lemma_skip_trivia_bounds(src, i + 1);
        }
    }
}

/// A word: the identifier or keyword that starts at `p`.
pub open spec fn scan_word(src: Seq<char>, p: int) -> Scan {
    let end = run_end(src, CharClass::Word, p);
    Scan::token(word_token(src.subrange(p, end)), end)
}

/// A double-quoted string whose opening quote is at `p`. Its text is what
/// stands between the quotes, taken as it is.
pub open spec fn scan_impure(src: Seq<char>, p: int) -> Scan {
    let close = run_end(src, CharClass::Quoted, p + 1);
    if close < src.len() {
        Scan::token(TokenView::impure_str(src.subrange(p + 1, close)), close + 1)
    } else {
        Scan::error(LexErrorView::UnterminatedString, src.len() as int)
    }
}

/// A single-quoted string whose text begins at `start`, scanned from `i` on.
/// A backslash takes the next character with it, which must be one of the
/// escapes; the text keeps both as they are written.
pub open spec fn scan_pure(src: Seq<char>, start: int, i: int) -> Scan
    decreases src.len() - i,
{
    if i < 0 || i >= src.len() {
        Scan::error(LexErrorView::UnterminatedString, src.len() as int)
    } else if src[i] == '\'' {
        Scan::token(TokenView::pure_str(src.subrange(start, i)), i + 1)
    } else if src[i] == '\\' {
        if i + 1 >= src.len() {
            Scan::error(LexErrorView::UnterminatedString, src.len() as int)
        } else if is_escape(src[i + 1]) {
            scan_pure(src, start, i + 2)
        } else {
            Scan::error(LexErrorView::InvalidEscape(src[i + 1]), i + 1)
        }
    } else {
        scan_pure(src, start, i + 1)
    }
}

/// The digits of a hexadecimal literal, which begin at `body`, after `0x`.
/// They must be followed by a space or by the end of the source.
pub open spec fn scan_hex(src: Seq<char>, body: int) -> Scan {
    let end = run_end(src, CharClass::HexDigit, body);
    if end < src.len() && src[end] != ' ' {
        Scan::error(LexErrorView::InvalidHexDigit(src[end]), end)
    } else if end <= body {
        Scan::error(LexErrorView::MissingHexDigits, end)
    } else {
        match spec_parse_radix(src.subrange(body, end), 16) {
            Some(value) => Scan::token(TokenView::num(value), end),
            None => Scan::error(LexErrorView::HexOutOfRange, end),
        }
    }
}

/// An octal literal, which begins at `p` with its leading `0`. Its digits
/// are scanned as decimal digits and must be followed by a space or by the
/// end of the source; an `8` or a `9` among them makes the literal invalid.
pub open spec fn scan_octal(src: Seq<char>, p: int) -> Scan {
    let end = run_end(src, CharClass::Digit, p);
    if end < src.len() && src[end] != ' ' {
        Scan::error(LexErrorView::InvalidOctalDigit(src[end]), end)
    } else {
        match spec_parse_radix(src.subrange(p, end), 8) {
            Some(value) => Scan::token(TokenView::num(value), end),
            None => Scan::error(LexErrorView::InvalidOctal, end),
        }
    }
}

/// A decimal literal, which begins at `p` with a digit other than `0`.
pub open spec fn scan_decimal(src: Seq<char>, p: int) -> Scan {
    let end = run_end(src, CharClass::Digit, p);
    match spec_parse_radix(src.subrange(p, end), 10) {
        Some(value) => Scan::token(TokenView::num(value), end),
        None => Scan::error(LexErrorView::InvalidNumber(src.subrange(p, end)), end),
    }
}

/// A number literal, which begins at `p` with a digit. After a leading `0`
/// comes `x` or `X` and a hexadecimal literal, or a digit and an octal literal;
/// a `0` followed by anything else is an error, and leaves the cursor on it.
pub open spec fn scan_number(src: Seq<char>, p: int) -> Scan {
    if src[p] == '0' {
        let next = char_at(src, p + 1);
        if next == Some('x') || next == Some('X') {
            scan_hex(src, p + 2)
        } else if next is Some && is_digit(next->0) {
            scan_octal(src, p)
        } else {
            Scan::error(LexErrorView::BareZero(next), p)
        }
    } else {
        scan_decimal(src, p)
    }
}

/// The operator spelled by the `n` characters from `p` on, if there are that
/// many and they spell one.
pub open spec fn operator_at(src: Seq<char>, p: int, n: int) -> Option<TokenType> {
    if p + n <= src.len() {
        operator_kind(src.subrange(p, p + n))
    } else {
        None
    }
}

/// An operator: the longest one that the characters from `p` on spell.
/// There is one exception to the longest match: `>!` must go on to `>!<`,
/// else it is an error, which leaves the cursor on the `!`.
pub open spec fn scan_operator(src: Seq<char>, p: int) -> Scan {
    if src[p] == '>' && char_at(src, p + 1) == Some('!') && char_at(src, p + 2) != Some('<') {
        Scan::error(LexErrorView::ExpectedLt(char_at(src, p + 2)), p + 1)
    } else if operator_at(src, p, 3) is Some {
        Scan::token(TokenView::plain(operator_at(src, p, 3)->0), p + 3)
    } else if operator_at(src, p, 2) is Some {
        Scan::token(TokenView::plain(operator_at(src, p, 2)->0), p + 2)
    } else if operator_at(src, p, 1) is Some {
        Scan::token(TokenView::plain(operator_at(src, p, 1)->0), p + 1)
    } else {
        Scan::error(LexErrorView::UnexpectedChar(src[p]), p)
    }
}

/// The token that starts at `p`, a position inside the source that holds a
/// significant character. A character that starts no token is an error, and
/// leaves the cursor on it.
pub open spec fn scan_token(src: Seq<char>, p: int) -> Scan {
    let c = src[p];
    if c == '"' {
        scan_impure(src, p)
    } else if c == '\'' {
        scan_pure(src, p + 1, p + 1)
    } else if delimiter_kind(c) is Some {
        Scan::token(TokenView::plain(delimiter_kind(c)->0), p + 1)
    } else if is_word_start(c) {
        scan_word(src, p)
    } else if is_digit(c) {
        scan_number(src, p)
    } else {
        scan_operator(src, p)
    }
}

/// One step of the scanner from position `pos`: blanks and comments are
/// passed over, then comes the token that starts there, or `Eof` where the
/// source has ended.
pub open spec fn scan(src: Seq<char>, pos: int) -> Scan {
    let p = skip_trivia(src, pos);
    if p >= src.len() {
        Scan::token(TokenView::plain(TokenType::Eof), p)
    } else {
        scan_token(src, p)
    }
}

} // verus!
