//! What holds of the grammar for every source text.
//!
//! Each theorem is stated over [`scan`], which is what one call of
//! [`crate::lexer::Lexer::next_token`] returns and where it leaves the
//! cursor.

use vstd::prelude::*;

use crate::chars::{is_escape, is_word_part, is_word_start, CharClass};
use crate::error::LexErrorView;
use crate::grammar::{
    lemma_run_end_bounds, lemma_run_end_is, lemma_run_end_members, lemma_skip_trivia_bounds,
    scan, scan_pure, scan_token, skip_trivia, Scan,
};
use crate::token::{keyword_kind, operator_kind, word_token, TokenType, TokenView};

verus! {

/// A word: a letter or an underscore, followed by letters, digits and
/// underscores.
pub open spec fn is_word(text: Seq<char>) -> bool {
    &&& text.len() > 0
    &&& is_word_start(text[0])
    &&& forall|j: int| 0 <= j < text.len() ==> is_word_part(#[trigger] text[j])
}

/// Every keyword is a word.
pub proof fn lemma_keywords_are_words(word: Seq<char>)
    requires
        keyword_kind(word) is Some,
    ensures
        is_word(word),
{
    reveal_strlit("if");
    reveal_strlit("else");
    reveal_strlit("function");
    reveal_strlit("NULL");
    reveal_strlit("TRUE");
    reveal_strlit("FALSE");
    reveal_strlit("return");
    reveal_strlit("for");
    reveal_strlit("while");
    reveal_strlit("break");
    reveal_strlit("continue");
    reveal_strlit("foreach");
    reveal_strlit("include");
    reveal_strlit("local_var");
    reveal_strlit("global_var");
    reveal_strlit("repeat");
    reveal_strlit("until");
}

/// The text of a single-quoted string is what stands between its quotes,
/// as it is written. Scanning one ends inside the source, and after the
/// closing quote where it succeeds.
pub proof fn lemma_scan_pure_raw(src: Seq<char>, start: int, i: int)
    requires
        0 <= start <= i <= src.len(),
    ensures
        ({
            let outcome = scan_pure(src, start, i);
            &&& i <= outcome.end <= src.len()
            &&& outcome.result is Ok ==> {
                &&& i < outcome.end
                &&& src[outcome.end - 1] == '\''
                &&& outcome.result == Ok::<TokenView, LexErrorView>(
                    TokenView::pure_str(src.subrange(start, outcome.end - 1)),
                )
            }
        }),
    decreases src.len() - i,
{
    if i < src.len() && src[i] != '\'' {
        if src[i] == '\\' {
            if i + 1 < src.len() && is_escape(src[i + 1]) {
                lemma_scan_pure_raw(src, start, i + 2);
            }
        } else {
            lemma_scan_pure_raw(src, start, i + 1);
        }
    }
}

/// A maximal word scans as one token, whatever it begins with: where a word
/// starts at `p` and ends just before `end`, the token at `p` is the
/// keyword that the whole word spells, or else an identifier whose text is
/// the whole word.
pub proof fn lemma_word_scanned(src: Seq<char>, p: int, end: int)
    requires
        0 <= p < end <= src.len(),
        is_word(src.subrange(p, end)),
        end < src.len() ==> !is_word_part(src[end]),
    ensures
        scan_token(src, p) == Scan::token(word_token(src.subrange(p, end)), end),
{
    let word = src.subrange(p, end);
    assert forall|j: int| p <= j < end implies CharClass::Word.contains(#[trigger] src[j]) by {
        assert(word[j - p] == src[j]);
    }
    lemma_run_end_is(src, CharClass::Word, p, end);
}

/// The token at a letter or an underscore is a whole word and nothing but a
/// word: it ends where the word characters end, and its text, the text of an
/// identifier in particular, is a letter or an underscore followed by
/// letters, digits and underscores.
pub proof fn lemma_word_is_maximal(src: Seq<char>, p: int)
    requires
        0 <= p < src.len(),
        is_word_start(src[p]),
    ensures
        ({
            let end = scan_token(src, p).end;
            &&& p < end <= src.len()
            &&& is_word(src.subrange(p, end))
            &&& end < src.len() ==> !is_word_part(src[end])
            &&& scan_token(src, p).result == Ok::<TokenView, LexErrorView>(
                word_token(src.subrange(p, end)),
            )
        }),
{
    lemma_run_end_bounds(src, CharClass::Word, p + 1);
    lemma_run_end_members(src, CharClass::Word, p);
}

/// An identifier comes back as it was written: a word that is no keyword,
/// scanned on its own, is an `Ident` token with the word as its text,
/// followed by the end of input.
pub proof fn lemma_identifier_round_trip(word: Seq<char>)
    requires
        is_word(word),
        keyword_kind(word) is None,
    ensures
        scan(word, 0) == Scan::token(TokenView::ident(word), word.len() as int),
        scan(word, word.len() as int) == Scan::token(
            TokenView::plain(TokenType::Eof),
            word.len() as int,
        ),
{
    assert(word.subrange(0, word.len() as int) =~= word);
    lemma_word_scanned(word, 0, word.len() as int);
}

/// A keyword is never an identifier: a reserved word, scanned on its own,
/// is the token of its own kind, followed by the end of input.
pub proof fn lemma_keyword_scanned(word: Seq<char>)
    requires
        keyword_kind(word) is Some,
    ensures
        scan(word, 0) == Scan::token(
            TokenView::plain(keyword_kind(word)->0),
            word.len() as int,
        ),
        scan(word, word.len() as int) == Scan::token(
            TokenView::plain(TokenType::Eof),
            word.len() as int,
        ),
{
    lemma_keywords_are_words(word);
    assert(word.subrange(0, word.len() as int) =~= word);
    lemma_word_scanned(word, 0, word.len() as int);
}

/// The text of a double-quoted string is what stands between its quotes,
/// character for character: where a quote at `p` is closed by the next quote
/// at `close`, the token at `p` is an `ImpureStr` with exactly the text in
/// between, backslashes and all.
pub proof fn lemma_impure_scanned(src: Seq<char>, p: int, close: int)
    requires
        0 <= p < close < src.len(),
        src[p] == '"',
        src[close] == '"',
        forall|j: int| p < j < close ==> #[trigger] src[j] != '"',
    ensures
        scan_token(src, p) == Scan::token(
            TokenView::impure_str(src.subrange(p + 1, close)),
            close + 1,
        ),
{
    lemma_run_end_is(src, CharClass::Quoted, p + 1, close);
}

/// An operator that is followed by a space, or by the end of the source,
/// scans as itself: where the characters from `p` on spell `op`, the token
/// at `p` is that operator and the cursor ends up just after it.
pub proof fn lemma_operator_scanned(src: Seq<char>, p: int, op: Seq<char>)
    requires
        operator_kind(op) is Some,
        0 <= p,
        p + op.len() <= src.len(),
        src.subrange(p, p + op.len()) == op,
        p + op.len() < src.len() ==> src[p + op.len()] == ' ',
    ensures
        scan_token(src, p) == Scan::token(
            TokenView::plain(operator_kind(op)->0),
            p + op.len(),
        ),
{
    assert forall|k: int| 0 <= k < op.len() implies src[p + k] == #[trigger] op[k] by {}
}

/// Every token is inside the source and takes at least one character with
/// it, so that scanning comes to an end: the cursor never moves backwards
/// and never leaves the source; it moves forwards with every token other
/// than `Eof`; and `Eof` is the token exactly where nothing but blanks and
/// comments is left.
pub proof fn lemma_scan_advances(src: Seq<char>, pos: int)
    requires
        0 <= pos <= src.len(),
    ensures
        pos <= scan(src, pos).end <= src.len(),
        scan(src, pos).result == Ok::<TokenView, LexErrorView>(
            TokenView::plain(TokenType::Eof),
        ) <==> skip_trivia(src, pos) == src.len(),
        scan(src, pos).result is Ok && skip_trivia(src, pos) < src.len() ==> pos < scan(
            src,
            pos,
        ).end,
{
    lemma_skip_trivia_bounds(src, pos);
    let p = skip_trivia(src, pos);
    if p < src.len() {
        lemma_run_end_bounds(src, CharClass::Quoted, p + 1);
        lemma_run_end_bounds(src, CharClass::Word, p + 1);
        lemma_run_end_bounds(src, CharClass::Digit, p + 1);
        if p + 2 <= src.len() {
            lemma_run_end_bounds(src, CharClass::HexDigit, p + 2);
        }
        lemma_scan_pure_raw(src, p + 1, p + 1);
    }
}

/// Once the end of input has been reported, it is reported again: if the
/// token at `pos` is `Eof`, the cursor is left at the end of the source, and
/// scanning from there gives `Eof` and leaves the cursor in place.
pub proof fn lemma_eof_repeats(src: Seq<char>, pos: int)
    requires
        0 <= pos <= src.len(),
        scan(src, pos).result == Ok::<TokenView, LexErrorView>(
            TokenView::plain(TokenType::Eof),
        ),
    ensures
        scan(src, pos).end == src.len(),
        scan(src, scan(src, pos).end) == scan(src, pos),
{
    lemma_scan_advances(src, pos);
}

/// No call returns a `Comment` token: comments are passed over, and the
/// kind stays unused.
pub proof fn lemma_comment_never_scanned(src: Seq<char>, pos: int)
    requires
        0 <= pos <= src.len(),
    ensures
        scan(src, pos).result matches Ok(token) ==> token.ty != TokenType::Comment,
{
    lemma_skip_trivia_bounds(src, pos);
    let p = skip_trivia(src, pos);
    if p < src.len() {
        lemma_scan_pure_raw(src, p + 1, p + 1);
    }
}

/// A comment vanishes together with the newline that ends it: where a `#`
/// stands at `start` and the next newline at `newline`, scanning from
/// `start` is scanning from just after the newline.
pub proof fn lemma_comment_skipped(src: Seq<char>, start: int, newline: int)
    requires
        0 <= start <= newline < src.len(),
        src[start] == '#',
        src[newline] == '\n',
        forall|j: int| start <= j < newline ==> #[trigger] src[j] != '\n',
    ensures
        skip_trivia(src, start) == skip_trivia(src, newline + 1),
        scan(src, start) == scan(src, newline + 1),
{
    lemma_run_end_is(src, CharClass::Comment, start, newline);
}

/// A comment that no newline ends runs to the end of the source, and the
/// token after it is `Eof`.
pub proof fn lemma_comment_to_the_end(src: Seq<char>, start: int)
    requires
        0 <= start < src.len(),
        src[start] == '#',
        forall|j: int| start <= j < src.len() ==> #[trigger] src[j] != '\n',
    ensures
        scan(src, start) == Scan::token(TokenView::plain(TokenType::Eof), src.len() as int),
{
    lemma_run_end_is(src, CharClass::Comment, start, src.len() as int);
    assert(skip_trivia(src, src.len() as int) == src.len());
}

/// The lexemes written one after another, with a single space between
/// neighbours.
pub open spec fn spaced(lexemes: Seq<Seq<char>>) -> Seq<char>
    decreases lexemes.len(),
{
    if lexemes.len() == 0 {
        Seq::empty()
    } else if lexemes.len() == 1 {
        lexemes[0]
    } else {
        spaced(lexemes.drop_last()) + seq![' '] + lexemes.last()
    }
}

/// Where the cursor stands after `n` calls of the scanner, the first of
/// them made at the start of the source.
pub open spec fn cursor_after(src: Seq<char>, n: nat) -> int
    decreases n,
{
    if n == 0 {
        0
    } else {
        scan(src, cursor_after(src, (n - 1) as nat)).end
    }
}

/// What call number `n` of the scanner returns, counting from zero.
pub open spec fn nth_result(src: Seq<char>, n: nat) -> Result<TokenView, LexErrorView> {
    scan(src, cursor_after(src, n)).result
}

/// Where lexeme number `k` begins in the spaced text of `lexemes`.
pub open spec fn spaced_start(lexemes: Seq<Seq<char>>, k: int) -> int {
    if k == 0 {
        0
    } else {
        spaced(lexemes.take(k)).len() as int + 1
    }
}

/// The layout of a spaced text: lexeme number `k` stands at its start, the
/// text of the first `k + 1` lexemes ends where it ends, and a space stands
/// in front of it unless it is the first.
pub proof fn lemma_spaced_layout(lexemes: Seq<Seq<char>>, k: int)
    requires
        0 <= k < lexemes.len(),
    ensures
        ({
            let src = spaced(lexemes);
            let start = spaced_start(lexemes, k);
            let end = spaced(lexemes.take(k + 1)).len() as int;
            &&& 0 <= start
            &&& end == start + lexemes[k].len()
            &&& end <= src.len()
            &&& src.subrange(start, end) == lexemes[k]
            &&& k > 0 ==> src[start - 1] == ' '
            &&& k + 1 == lexemes.len() ==> end == src.len()
        }),
    decreases lexemes.len() - k,
{
    let head = lexemes.take(k + 1);
    let text = spaced(head);
    let start = spaced_start(lexemes, k);
    assert(head.drop_last() =~= lexemes.take(k));
    lemma_spaced_prefix(lexemes, k + 1);
    if k > 0 {
        assert(text[start - 1] == ' ');
    }
    assert(text.subrange(start, text.len() as int) =~= lexemes[k]);
}

/// The spaced text of the first `m` lexemes is the beginning of the spaced
/// text of them all.
pub proof fn lemma_spaced_prefix(lexemes: Seq<Seq<char>>, m: int)
    requires
        0 <= m <= lexemes.len(),
    ensures
        spaced(lexemes.take(m)).len() <= spaced(lexemes).len(),
        spaced(lexemes).take(spaced(lexemes.take(m)).len() as int) == spaced(lexemes.take(m)),
    decreases lexemes.len() - m,
{
    if m == lexemes.len() {
        assert(lexemes.take(m) =~= lexemes);
    } else {
        lemma_spaced_prefix(lexemes, m + 1);
        assert(lexemes.take(m + 1).drop_last() =~= lexemes.take(m));
    }
}

/// Operators separated by single spaces come back in their order, and then
/// comes the end of input: scanning the spaced text of any list of operators
/// gives, call by call, the token of each operator of the list, and `Eof`
/// after the last.
pub proof fn lemma_spaced_operators(lexemes: Seq<Seq<char>>)
    requires
        forall|i: int| 0 <= i < lexemes.len() ==> operator_kind(#[trigger] lexemes[i]) is Some,
    ensures
        forall|k: nat|
            k < lexemes.len() ==> #[trigger] nth_result(spaced(lexemes), k) == Ok::<
                TokenView,
                LexErrorView,
            >(TokenView::plain(operator_kind(lexemes[k as int])->0)),
        nth_result(spaced(lexemes), lexemes.len()) == Ok::<TokenView, LexErrorView>(
            TokenView::plain(TokenType::Eof),
        ),
{
    let src = spaced(lexemes);
    assert forall|k: nat| k < lexemes.len() implies #[trigger] nth_result(src, k) == Ok::<
        TokenView,
        LexErrorView,
    >(TokenView::plain(operator_kind(lexemes[k as int])->0)) by {
        lemma_spaced_operators_step(lexemes, k);
    }
    lemma_spaced_operators_cursor(lexemes, lexemes.len());
    assert(lexemes.take(lexemes.len() as int) =~= lexemes);
}

/// After `k` calls on the spaced text of a list of operators the cursor
/// stands at the end of the first `k` of them.
pub proof fn lemma_spaced_operators_cursor(lexemes: Seq<Seq<char>>, k: nat)
    requires
        forall|i: int| 0 <= i < lexemes.len() ==> operator_kind(#[trigger] lexemes[i]) is Some,
        k <= lexemes.len(),
    ensures
        cursor_after(spaced(lexemes), k) == spaced(lexemes.take(k as int)).len(),
    decreases k, 0nat,
{
    if k > 0 {
        lemma_spaced_operators_step(lexemes, (k - 1) as nat);
    }
}

/// Call number `k` on the spaced text of a list of operators returns
/// operator number `k` and leaves the cursor at its end.
pub proof fn lemma_spaced_operators_step(lexemes: Seq<Seq<char>>, k: nat)
    requires
        forall|i: int| 0 <= i < lexemes.len() ==> operator_kind(#[trigger] lexemes[i]) is Some,
        k < lexemes.len(),
    ensures
        scan(spaced(lexemes), cursor_after(spaced(lexemes), k)) == Scan::token(
            TokenView::plain(operator_kind(lexemes[k as int])->0),
            spaced(lexemes.take(k as int + 1)).len() as int,
        ),
    decreases k, 1nat,
{
    let src = spaced(lexemes);
    let op = lexemes[k as int];
    let start = spaced_start(lexemes, k as int);
    lemma_spaced_operators_cursor(lexemes, k);
    lemma_spaced_layout(lexemes, k as int);
    if k + 1 < lexemes.len() {
        lemma_spaced_layout(lexemes, k as int + 1);
    }
    lemma_operator_scanned(src, start, op);
    assert(src[start] == op[0]);
    assert(skip_trivia(src, start) == start);
}

} // verus!
