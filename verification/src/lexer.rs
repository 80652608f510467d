//! The scanner: a cursor over a source text that hands out one token per
//! call.

use vstd::prelude::*;

use crate::chars::{is_blank, is_digit, is_escape, is_word_start, CharClass};
use crate::error::{LexError, LexErrorView};
use crate::grammar::{
    lemma_run_end_bounds, run_end, scan, scan_hex, scan_number, scan_octal, scan_pure,
    skip_trivia, Scan,
};
use crate::number::parse_radix;
use crate::text::{char_at, char_count_fits, drop_first_char, first_two, prefix_before};
use crate::theorems::{lemma_comment_never_scanned, lemma_scan_advances};
use crate::token::{Token, TokenView};

verus! {

/// A scanner over one source text. It borrows the text, and so does every
/// token it returns.
#[derive(Debug)]
pub struct Lexer<'a> {
    /// The whole source. Scanning reads `tail` only; this is what `tail` is
    /// the rest of.
    #[allow(dead_code)]
    data: &'a str,
    /// What is left of `data`, from the current character on.
    tail: &'a str,
    /// How many characters have been consumed.
    cur_pos: usize,
    cur_char: Option<char>,
    peek_char: Option<char>,
}

/// What a call of the scanner returned, as a mathematical value.
pub open spec fn result_view(res: Result<Token<'_>, LexError<'_>>) -> Result<
    TokenView,
    LexErrorView,
> {
    match res {
        Ok(token) => Ok(token@),
        Err(error) => Err(error@),
    }
}

impl<'a> Lexer<'a> {
    /// The text being scanned.
    pub closed spec fn source(&self) -> Seq<char> {
        self.data@
    }

    /// The position of the cursor: the index of the current character in
    /// the source, or the length of the source once it is used up.
    pub closed spec fn pos(&self) -> int {
        self.cur_pos as int
    }

    /// The cursor is inside the source or at its end, and the two lookahead
    /// characters are the ones that stand at the cursor and after it.
    pub closed spec fn wf(&self) -> bool {
        &&& self.data@.len() <= usize::MAX
        &&& self.cur_pos <= self.data@.len()
        &&& self.tail@ == self.data@.skip(self.cur_pos as int)
        &&& self.cur_char == char_at(self.data@, self.cur_pos as int)
        &&& self.peek_char == char_at(self.data@, self.cur_pos + 1)
    }

    /// In a well-formed scanner the cursor is inside the source or at its
    /// end.
    pub proof fn lemma_pos_in_source(&self)
        requires
            self.wf(),
        ensures
            0 <= self.pos() <= self.source().len(),
    {
    }

    /// A scanner at the start of `data`.
    pub fn new(data: &'a str) -> (lexer: Self)
        ensures
            lexer.wf(),
            lexer.source() == data@,
            lexer.pos() == 0,
    {
        char_count_fits(data);
        let (cur_char, peek_char) = first_two(data);
        assert(data@.skip(0) =~= data@);
        Lexer { data, tail: data, cur_pos: 0, cur_char, peek_char }
    }

    /// Scans the next token. Blanks and comments in front of it are passed
    /// over. At the end of the source the token is `Eof`, on every call. On
    /// a failure the cursor stays where the grammar says, and the scanner
    /// can be asked again.
    pub fn next_token(&mut self) -> (res: Result<Token<'a>, LexError<'a>>)
        requires
            old(self).wf(),
        ensures
            final(self).wf(),
            final(self).source() == old(self).source(),
            result_view(res) == scan(old(self).source(), old(self).pos()).result,
            final(self).pos() == scan(old(self).source(), old(self).pos()).end,
            old(self).pos() <= final(self).pos() <= final(self).source().len(),
            res matches Ok(Token::Eof) ==> final(self).pos() == final(self).source().len(),
            old(self).pos() == old(self).source().len() ==> res matches Ok(Token::Eof),
            !(res matches Ok(Token::Comment)),
    {
        proof {
            lemma_scan_advances(self.source(), self.pos());
            lemma_comment_never_scanned(self.source(), self.pos());
        }
        self.eat_whitespace_or_comment();
        let token = match self.cur_char {
            Some('(') => Token::Lparan,
            Some(')') => Token::Rparan,
            Some('{') => Token::Lbrace,
            Some('}') => Token::Rbrace,
            Some('[') => Token::Lbracket,
            Some(']') => Token::Rbracket,
            Some(';') => Token::SemiColon,
            Some(':') => Token::Colon,
            Some('"') => {
                match self.read_impure_str() {
                    Ok(text) => Token::ImpureStr(text),
                    Err(error) => {
                        return Err(error);
                    },
                }
            },
            Some('\'') => {
                match self.read_pure_str() {
                    Ok(text) => Token::PureStr(text),
                    Err(error) => {
                        return Err(error);
                    },
                }
            },
            Some(',') => Token::Comma,
            Some('+') => {
                match self.peek_char {
                    Some('+') => {
                        let _ = self.read_char();
                        Token::Incr
                    },
                    Some('=') => {
                        let _ = self.read_char();
                        Token::PlusEq
                    },
                    _ => Token::Plus,
                }
            },
            Some('-') => {
                match self.peek_char {
                    Some('-') => {
                        let _ = self.read_char();
                        Token::Decr
                    },
                    Some('=') => {
                        let _ = self.read_char();
                        Token::MinusEq
                    },
                    _ => Token::Minus,
                }
            },
            Some('*') => {
                match self.peek_char {
                    Some('*') => {
                        let _ = self.read_char();
                        Token::Pow
                    },
                    Some('=') => {
                        let _ = self.read_char();
                        Token::MulEq
                    },
                    _ => Token::Mul,
                }
            },
            Some('/') => {
                match self.peek_char {
                    Some('=') => {
                        let _ = self.read_char();
                        Token::DivEq
                    },
                    _ => Token::Div,
                }
            },
            Some('%') => {
                match self.peek_char {
                    Some('=') => {
                        let _ = self.read_char();
                        Token::ModEq
                    },
                    _ => Token::Mod,
                }
            },
            Some('=') => {
                match self.peek_char {
                    Some('=') => {
                        let _ = self.read_char();
                        Token::Equ
                    },
                    Some('~') => {
                        let _ = self.read_char();
                        Token::ReMatch
                    },
                    _ => Token::Assign,
                }
            },
            Some('!') => {
                match self.peek_char {
                    Some('=') => {
                        let _ = self.read_char();
                        Token::Nequ
                    },
                    Some('~') => {
                        let _ = self.read_char();
                        Token::NreMatch
                    },
                    _ => Token::Not,
                }
            },
            Some('&') => {
                match self.peek_char {
                    Some('&') => {
                        let _ = self.read_char();
                        Token::And
                    },
                    _ => Token::BwAnd,
                }
            },
            Some('|') => {
                match self.peek_char {
                    Some('|') => {
                        let _ = self.read_char();
                        Token::Or
                    },
                    _ => Token::BwOr,
                }
            },
            Some('^') => {
                match self.peek_char {
                    Some('=') => {
                        let _ = self.read_char();
                        Token::XorEq
                    },
                    _ => Token::BwXor,
                }
            },
            Some('>') => {
                match self.peek_char {
                    Some('<') => {
                        let _ = self.read_char();
                        Token::Substr
                    },
                    Some('=') => {
                        let _ = self.read_char();
                        Token::Gte
                    },
                    Some('>') => {
                        let _ = self.read_char();
                        match self.peek_char {
                            Some('=') => {
                                let _ = self.read_char();
                                Token::ShrEq
                            },
                            Some('>') => {
                                let _ = self.read_char();
                                Token::Ushr
                            },
                            _ => Token::Shr,
                        }
                    },
                    Some('!') => {
                        let _ = self.read_char();
                        match self.peek_char {
                            Some('<') => {
                                let _ = self.read_char();
                                Token::NSUBSTR
                            },
                            found => {
                                return Err(LexError::ExpectedLt(found));
                            },
                        }
                    },
                    _ => Token::Gt,
                }
            },
            Some('<') => {
                match self.peek_char {
                    Some('=') => {
                        let _ = self.read_char();
                        Token::Lte
                    },
                    Some('<') => {
                        let _ = self.read_char();
                        match self.peek_char {
                            Some('=') => {
                                let _ = self.read_char();
                                Token::ShlEq
                            },
                            _ => Token::Shl,
                        }
                    },
                    _ => Token::Lt,
                }
            },
            Some(ch) => {
                if is_word_start(ch) {
                    let key = self.read_identifier();
                    return Ok(Token::from_ident(key));
                } else if is_digit(ch) {
                    match self.read_number() {
                        Ok(value) => {
                            return Ok(Token::Num(value));
                        },
                        Err(error) => {
                            return Err(error);
                        },
                    }
                }
                return Err(LexError::UnexpectedChar(ch));
            },
            None => Token::Eof,
        };
        // The cursor stands on the last character of the token.
        assert(scan(old(self).source(), old(self).pos()) == Scan::token(
            token@,
            if self.pos() < self.source().len() {
                self.pos() + 1
            } else {
                self.pos()
            },
        ));
        let _ = self.read_char();
        Ok(token)
    }

    /// Moves the cursor past blanks and `#` comments. A comment runs to the
    /// end of its line and takes the newline with it.
    fn eat_whitespace_or_comment(&mut self)
        requires
            old(self).wf(),
        ensures
            final(self).wf(),
            final(self).source() == old(self).source(),
            final(self).pos() == skip_trivia(old(self).source(), old(self).pos()),
            0 <= final(self).pos() <= final(self).source().len(),
    {
        loop
            invariant
                self.wf(),
                self.source() == old(self).source(),
                skip_trivia(self.source(), self.pos()) == skip_trivia(
                    old(self).source(),
                    old(self).pos(),
                ),
            ensures
                self.wf(),
                self.source() == old(self).source(),
                self.pos() == skip_trivia(old(self).source(), old(self).pos()),
            decreases self.source().len() - self.pos(),
        {
            match self.cur_char {
                Some('#') => {
                    proof {
                        lemma_run_end_bounds(self.source(), CharClass::Comment, self.pos());
                    }
                    self.read_run(CharClass::Comment);
                    let _ = self.read_char();
                },
                Some(ch) => {
                    if !is_blank(ch) {
                        break ;
                    }
                    let _ = self.read_char();
                },
                None => {
                    break ;
                },
            }
        }
    }

    /// Consumes the current character, if there is one, and returns the one
    /// that the cursor then stands on.
    fn read_char(&mut self) -> (c: Option<char>)
        requires
            old(self).wf(),
        ensures
            final(self).wf(),
            final(self).source() == old(self).source(),
            final(self).pos() == if old(self).pos() < old(self).source().len() {
                old(self).pos() + 1
            } else {
                old(self).pos()
            },
            c == char_at(final(self).source(), final(self).pos()),
    {
        if let Some(current) = self.cur_char {
            self.tail = drop_first_char(self.tail, current);
            self.cur_pos = self.cur_pos + 1;
            self.cur_char = self.peek_char;
            self.peek_char = first_two(self.tail).1;
            assert(self.tail@ =~= self.data@.skip(self.cur_pos as int));
        }
        self.cur_char
    }

    /// Consumes characters as long as they belong to `class`.
    fn read_run(&mut self, class: CharClass)
        requires
            old(self).wf(),
        ensures
            final(self).wf(),
            final(self).source() == old(self).source(),
            final(self).pos() == run_end(old(self).source(), class, old(self).pos()),
            old(self).pos() <= final(self).pos() <= final(self).source().len(),
    {
        loop
            invariant
                self.wf(),
                self.source() == old(self).source(),
                old(self).pos() <= self.pos(),
                run_end(self.source(), class, self.pos()) == run_end(
                    old(self).source(),
                    class,
                    old(self).pos(),
                ),
            ensures
                self.wf(),
                self.source() == old(self).source(),
                old(self).pos() <= self.pos(),
                self.pos() == run_end(old(self).source(), class, old(self).pos()),
            decreases self.source().len() - self.pos(),
        {
            match self.cur_char {
                Some(ch) => {
                    if !class.contains(ch) {
                        break ;
                    }
                    let _ = self.read_char();
                },
                None => {
                    break ;
                },
            }
        }
    }

    /// The text between `start`, an earlier state of the unread input, and
    /// the cursor.
    fn text_since(&self, start: &'a str, Ghost(from): Ghost<int>) -> (text: &'a str)
        requires
            self.wf(),
            0 <= from <= self.pos(),
            start@ == self.source().skip(from),
        ensures
            text@ == self.source().subrange(from, self.pos()),
    {
        assert(self.data@.skip(from).skip(self.cur_pos - from) =~= self.tail@);
        prefix_before(start, self.tail)
    }

    /// Scans a word from the cursor on and returns its text.
    fn read_identifier(&mut self) -> (word: &'a str)
        requires
            old(self).wf(),
        ensures
            final(self).wf(),
            final(self).source() == old(self).source(),
            final(self).pos() == run_end(old(self).source(), CharClass::Word, old(self).pos()),
            word@ == old(self).source().subrange(old(self).pos(), final(self).pos()),
    {
        let start = self.tail;
        let ghost from = self.cur_pos as int;
        self.read_run(CharClass::Word);
        self.text_since(start, Ghost(from))
    }

    /// Scans a double-quoted string, the cursor being on its opening quote.
    /// Returns the text between the quotes and leaves the cursor on the
    /// closing quote.
    fn read_impure_str(&mut self) -> (res: Result<&'a str, LexError<'a>>)
        requires
            old(self).wf(),
            old(self).pos() < old(self).source().len(),
        ensures
            final(self).wf(),
            final(self).source() == old(self).source(),
            final(self).pos() == run_end(
                old(self).source(),
                CharClass::Quoted,
                old(self).pos() + 1,
            ),
            match res {
                Ok(text) => final(self).pos() < final(self).source().len() && text@ == old(
                    self,
                ).source().subrange(old(self).pos() + 1, final(self).pos()),
                Err(error) => final(self).pos() == final(self).source().len() && error
                    == LexError::UnterminatedString,
            },
    {
        let _ = self.read_char();
        let start = self.tail;
        let ghost from = self.cur_pos as int;
        self.read_run(CharClass::Quoted);
        match self.cur_char {
            Some(_) => Ok(self.text_since(start, Ghost(from))),
            None => Err(LexError::UnterminatedString),
        }
    }

    /// Scans a single-quoted string, the cursor being on its opening quote.
    /// Returns the text between the quotes, escapes as they are written, and
    /// leaves the cursor on the closing quote.
    fn read_pure_str(&mut self) -> (res: Result<&'a str, LexError<'a>>)
        requires
            old(self).wf(),
            old(self).pos() < old(self).source().len(),
        ensures
            final(self).wf(),
            final(self).source() == old(self).source(),
            final(self).pos() <= final(self).source().len(),
            ({
                let body = old(self).pos() + 1;
                let outcome = scan_pure(old(self).source(), body, body);
                match res {
                    Ok(text) => outcome == Scan::token(
                        TokenView::pure_str(text@),
                        final(self).pos() + 1,
                    ) && final(self).pos() < final(self).source().len(),
                    Err(error) => outcome == Scan::error(error@, final(self).pos()),
                }
            }),
    {
        let _ = self.read_char();
        let start = self.tail;
        let ghost from = self.cur_pos as int;
        let ghost src = self.data@;
        let mut on_escape = false;
        loop
            invariant
                self.wf(),
                self.source() == old(self).source(),
                src == self.source(),
                from == old(self).pos() + 1,
                start@ == src.skip(from),
                from <= self.pos() <= src.len(),
                on_escape ==> from < self.pos() && src[self.pos() - 1] == '\\',
                scan_pure(src, from, from) == scan_pure(
                    src,
                    from,
                    if on_escape {
                        self.pos() - 1
                    } else {
                        self.pos()
                    },
                ),
            decreases src.len() - self.pos(),
        {
            match self.cur_char {
                Some(ch) => {
                    if ch == '\\' && !on_escape {
                        on_escape = true;
                    } else if on_escape {
                        if !is_escape(ch) {
                            return Err(LexError::InvalidEscape(ch));
                        }
                        on_escape = false;
                    } else if ch == '\'' {
                        return Ok(self.text_since(start, Ghost(from)));
                    }
                    let _ = self.read_char();
                },
                None => {
                    return Err(LexError::UnterminatedString);
                },
            }
        }
    }

    /// Scans the digits of a hexadecimal literal, the cursor being just
    /// after the `0x` that began at `start_pos`.
    fn read_hexadecimal(&mut self, start_pos: usize) -> (res: Result<i32, LexError<'a>>)
        requires
            old(self).wf(),
            old(self).pos() == start_pos + 2,
        ensures
            final(self).wf(),
            final(self).source() == old(self).source(),
            match res {
                Ok(value) => scan_hex(old(self).source(), old(self).pos()) == Scan::token(
                    TokenView::num(value as int),
                    final(self).pos(),
                ),
                Err(error) => scan_hex(old(self).source(), old(self).pos()) == Scan::error(
                    error@,
                    final(self).pos(),
                ),
            },
    {
        let start = self.tail;
        let ghost from = self.cur_pos as int;
        self.read_run(CharClass::HexDigit);
        if let Some(ch) = self.cur_char {
            if ch != ' ' {
                return Err(LexError::InvalidHexDigit(ch));
            }
        }
        if self.cur_pos - start_pos <= 2 {
            return Err(LexError::MissingHexDigits);
        }
        match parse_radix(self.text_since(start, Ghost(from)), 16) {
            Some(value) => Ok(value),
            None => Err(LexError::HexOutOfRange),
        }
    }

    /// Scans an octal literal, the cursor being on its leading `0`.
    fn read_octal(&mut self) -> (res: Result<i32, LexError<'a>>)
        requires
            old(self).wf(),
        ensures
            final(self).wf(),
            final(self).source() == old(self).source(),
            match res {
                Ok(value) => scan_octal(old(self).source(), old(self).pos()) == Scan::token(
                    TokenView::num(value as int),
                    final(self).pos(),
                ),
                Err(error) => scan_octal(old(self).source(), old(self).pos()) == Scan::error(
                    error@,
                    final(self).pos(),
                ),
            },
    {
        let start = self.tail;
        let ghost from = self.cur_pos as int;
        self.read_run(CharClass::Digit);
        if let Some(ch) = self.cur_char {
            if ch != ' ' {
                return Err(LexError::InvalidOctalDigit(ch));
            }
        }
        match parse_radix(self.text_since(start, Ghost(from)), 8) {
            Some(value) => Ok(value),
            None => Err(LexError::InvalidOctal),
        }
    }

    /// Scans a number literal, the cursor being on its first digit.
    fn read_number(&mut self) -> (res: Result<i32, LexError<'a>>)
        requires
            old(self).wf(),
            old(self).pos() < old(self).source().len(),
        ensures
            final(self).wf(),
            final(self).source() == old(self).source(),
            match res {
                Ok(value) => scan_number(old(self).source(), old(self).pos()) == Scan::token(
                    TokenView::num(value as int),
                    final(self).pos(),
                ),
                Err(error) => scan_number(old(self).source(), old(self).pos()) == Scan::error(
                    error@,
                    final(self).pos(),
                ),
            },
    {
        let cur_pos = self.cur_pos;
        if self.cur_char == Some('0') {
            match self.peek_char {
                Some('x') | Some('X') => {
                    let _ = self.read_char();
                    let _ = self.read_char();
                    return self.read_hexadecimal(cur_pos);
                },
                found => {
                    if let Some(ch) = found {
                        if is_digit(ch) {
                            return self.read_octal();
                        }
                    }
                    return Err(LexError::BareZero(found));
                },
            }
        }
        let start = self.tail;
        let ghost from = self.cur_pos as int;
        self.read_run(CharClass::Digit);
        let text = self.text_since(start, Ghost(from));
        match parse_radix(text, 10) {
            Some(value) => Ok(value),
            None => Err(LexError::InvalidNumber(text)),
        }
    }
}

} // verus!
