//! The token vocabulary: token kinds, tokens with their payloads, and the
//! fixed tables of keywords, operators and delimiters.

use vstd::pervasive::unreached;
use vstd::prelude::*;

use crate::text::str_eq;

verus! {

/// The tag of a token, independent of its payload.
#[allow(clippy::upper_case_acronyms)]
#[derive(Debug, PartialEq, Eq, Hash, Clone, Copy)]
pub enum TokenType {
    /// `+`
    Plus,
    /// `-`
    Minus,
    /// `*`
    Mul,
    /// `/`
    Div,
    /// `%`
    Mod,
    /// `=`
    Assign,
    /// `==`
    Equ,
    /// `!=`
    Nequ,
    /// `&&`
    And,
    /// `||`
    Or,
    /// `>`
    Gt,
    /// `<`
    Lt,
    /// `>=`
    Gte,
    /// `<=`
    Lte,
    /// `!`
    Not,
    /// `&`
    BwAnd,
    /// `|`
    BwOr,
    /// `^`
    BwXor,
    /// `+=`
    PlusEq,
    /// `-=`
    MinusEq,
    /// `/=`
    DivEq,
    /// `%=`
    ModEq,
    /// `*=`
    MulEq,
    /// `^=`
    XorEq,
    /// `>>`
    Shr,
    /// `<<`
    Shl,
    /// `>>=`
    ShrEq,
    /// `<<=`
    ShlEq,
    /// `>>>`
    Ushr,
    /// `++`
    Incr,
    /// `--`
    Decr,
    /// `**`
    Pow,
    /// `><`
    Substr,
    /// `>!<`
    NSUBSTR,
    /// `=~`
    ReMatch,
    /// `!~`
    NreMatch,
    If,
    Else,
    /// `(`
    Lparan,
    /// `)`
    Rparan,
    /// `{`
    Lbrace,
    /// `}`
    Rbrace,
    /// `[`
    Lbracket,
    /// `]`
    Rbracket,
    /// `;`
    SemiColon,
    /// `,`
    Comma,
    Ident,
    PureStr,
    ImpureStr,
    /// `:`
    Colon,
    Num,
    Eof,
    Comment,
    Function,
    Null,
    True,
    False,
    Return,
    For,
    While,
    Break,
    Continue,
    Foreach,
    Include,
    LocalVar,
    GlobalVar,
    Repeat,
    Until,
}

/// One token. The text of an identifier or of a string borrows from the
/// source it was read from.
#[allow(clippy::upper_case_acronyms)]
#[derive(Debug, PartialEq, Eq, Clone, Copy)]
pub enum Token<'a> {
    Plus,
    Minus,
    Mul,
    Div,
    Mod,
    Assign,
    Equ,
    Nequ,
    And,
    Or,
    Gt,
    Lt,
    Gte,
    Lte,
    Not,
    BwAnd,
    BwOr,
    BwXor,
    PlusEq,
    MinusEq,
    DivEq,
    ModEq,
    MulEq,
    XorEq,
    Shr,
    Shl,
    ShrEq,
    ShlEq,
    Ushr,
    Incr,
    Decr,
    Pow,
    Substr,
    NSUBSTR,
    ReMatch,
    NreMatch,
    If,
    Else,
    Lparan,
    Rparan,
    Lbrace,
    Rbrace,
    Lbracket,
    Rbracket,
    SemiColon,
    Comma,
    /// An identifier, with its text.
    Ident(&'a str),
    /// A single-quoted string, with the text between the quotes. Escape
    /// sequences are checked but left as written.
    PureStr(&'a str),
    /// A double-quoted string, with the text between the quotes.
    ImpureStr(&'a str),
    Colon,
    /// A number literal, with its value.
    Num(i32),
    Eof,
    Comment,
    Function,
    Null,
    True,
    False,
    Return,
    For,
    While,
    Break,
    Continue,
    Foreach,
    Include,
    LocalVar,
    GlobalVar,
    Repeat,
    Until,
}

/// What a token is, as a mathematical value: its kind, the text it carries
/// (empty unless it is an identifier or a string) and the number it denotes
/// (zero unless it is a number literal).
pub struct TokenView {
    pub ty: TokenType,
    pub text: Seq<char>,
    pub value: int,
}

impl TokenView {
    /// A token without payload.
    pub open spec fn plain(ty: TokenType) -> TokenView {
        TokenView { ty, text: Seq::empty(), value: 0 }
    }

    pub open spec fn ident(text: Seq<char>) -> TokenView {
        TokenView { ty: TokenType::Ident, text, value: 0 }
    }

    pub open spec fn pure_str(text: Seq<char>) -> TokenView {
        TokenView { ty: TokenType::PureStr, text, value: 0 }
    }

    pub open spec fn impure_str(text: Seq<char>) -> TokenView {
        TokenView { ty: TokenType::ImpureStr, text, value: 0 }
    }

    pub open spec fn num(value: int) -> TokenView {
        TokenView { ty: TokenType::Num, text: Seq::empty(), value }
    }
}

/// The keyword that `word` spells, if any.
pub open spec fn keyword_kind(word: Seq<char>) -> Option<TokenType> {
    if word == "if"@ {
        Some(TokenType::If)
    } else if word == "else"@ {
        Some(TokenType::Else)
    } else if word == "function"@ {
        Some(TokenType::Function)
    } else if word == "NULL"@ {
        Some(TokenType::Null)
    } else if word == "TRUE"@ {
        Some(TokenType::True)
    } else if word == "FALSE"@ {
        Some(TokenType::False)
    } else if word == "return"@ {
        Some(TokenType::Return)
    } else if word == "for"@ {
        Some(TokenType::For)
    } else if word == "while"@ {
        Some(TokenType::While)
    } else if word == "break"@ {
        Some(TokenType::Break)
    } else if word == "continue"@ {
        Some(TokenType::Continue)
    } else if word == "foreach"@ {
        Some(TokenType::Foreach)
    } else if word == "include"@ {
        Some(TokenType::Include)
    } else if word == "local_var"@ {
        Some(TokenType::LocalVar)
    } else if word == "global_var"@ {
        Some(TokenType::GlobalVar)
    } else if word == "repeat"@ {
        Some(TokenType::Repeat)
    } else if word == "until"@ {
        Some(TokenType::Until)
    } else {
        None
    }
}

/// The token that a scanned word stands for: its keyword, or an identifier
/// carrying the word.
pub open spec fn word_token(word: Seq<char>) -> TokenView {
    match keyword_kind(word) {
        Some(kind) => TokenView::plain(kind),
        None => TokenView::ident(word),
    }
}

/// The delimiter that `c` is, if any.
pub open spec fn delimiter_kind(c: char) -> Option<TokenType> {
    if c == '(' {
        Some(TokenType::Lparan)
    } else if c == ')' {
        Some(TokenType::Rparan)
    } else if c == '{' {
        Some(TokenType::Lbrace)
    } else if c == '}' {
        Some(TokenType::Rbrace)
    } else if c == '[' {
        Some(TokenType::Lbracket)
    } else if c == ']' {
        Some(TokenType::Rbracket)
    } else if c == ';' {
        Some(TokenType::SemiColon)
    } else if c == ':' {
        Some(TokenType::Colon)
    } else if c == ',' {
        Some(TokenType::Comma)
    } else {
        None
    }
}

/// The operator written with the single character `a`, if any.
pub open spec fn operator1(a: char) -> Option<TokenType> {
    if a == '+' {
        Some(TokenType::Plus)
    } else if a == '-' {
        Some(TokenType::Minus)
    } else if a == '*' {
        Some(TokenType::Mul)
    } else if a == '/' {
        Some(TokenType::Div)
    } else if a == '%' {
        Some(TokenType::Mod)
    } else if a == '=' {
        Some(TokenType::Assign)
    } else if a == '>' {
        Some(TokenType::Gt)
    } else if a == '<' {
        Some(TokenType::Lt)
    } else if a == '!' {
        Some(TokenType::Not)
    } else if a == '&' {
        Some(TokenType::BwAnd)
    } else if a == '|' {
        Some(TokenType::BwOr)
    } else if a == '^' {
        Some(TokenType::BwXor)
    } else {
        None
    }
}

/// The operator written with the two characters `a`, `b`, if any.
pub open spec fn operator2(a: char, b: char) -> Option<TokenType> {
    if a == '=' && b == '=' {
        Some(TokenType::Equ)
    } else if a == '!' && b == '=' {
        Some(TokenType::Nequ)
    } else if a == '&' && b == '&' {
        Some(TokenType::And)
    } else if a == '|' && b == '|' {
        Some(TokenType::Or)
    } else if a == '>' && b == '=' {
        Some(TokenType::Gte)
    } else if a == '<' && b == '=' {
        Some(TokenType::Lte)
    } else if a == '+' && b == '=' {
        Some(TokenType::PlusEq)
    } else if a == '-' && b == '=' {
        Some(TokenType::MinusEq)
    } else if a == '/' && b == '=' {
        Some(TokenType::DivEq)
    } else if a == '%' && b == '=' {
        Some(TokenType::ModEq)
    } else if a == '*' && b == '=' {
        Some(TokenType::MulEq)
    } else if a == '^' && b == '=' {
        Some(TokenType::XorEq)
    } else if a == '>' && b == '>' {
        Some(TokenType::Shr)
    } else if a == '<' && b == '<' {
        Some(TokenType::Shl)
    } else if a == '+' && b == '+' {
        Some(TokenType::Incr)
    } else if a == '-' && b == '-' {
        Some(TokenType::Decr)
    } else if a == '*' && b == '*' {
        Some(TokenType::Pow)
    } else if a == '>' && b == '<' {
        Some(TokenType::Substr)
    } else if a == '=' && b == '~' {
        Some(TokenType::ReMatch)
    } else if a == '!' && b == '~' {
        Some(TokenType::NreMatch)
    } else {
        None
    }
}

/// The operator written with the three characters `a`, `b`, `c`, if any.
pub open spec fn operator3(a: char, b: char, c: char) -> Option<TokenType> {
    if a == '>' && b == '>' && c == '=' {
        Some(TokenType::ShrEq)
    } else if a == '<' && b == '<' && c == '=' {
        Some(TokenType::ShlEq)
    } else if a == '>' && b == '>' && c == '>' {
        Some(TokenType::Ushr)
    } else if a == '>' && b == '!' && c == '<' {
        Some(TokenType::NSUBSTR)
    } else {
        None
    }
}

/// The operator that `lexeme` spells, if any. Operators are one to three
/// characters long.
pub open spec fn operator_kind(lexeme: Seq<char>) -> Option<TokenType> {
    if lexeme.len() == 1 {
        operator1(lexeme[0])
    } else if lexeme.len() == 2 {
        operator2(lexeme[0], lexeme[1])
    } else if lexeme.len() == 3 {
        operator3(lexeme[0], lexeme[1], lexeme[2])
    } else {
        None
    }
}

/// The spelling of each operator: a lexeme that [`operator_kind`] knows is
/// the text of that operator, and of no other.
pub proof fn lemma_operator_spelling(lexeme: Seq<char>)
    ensures
        operator_kind(lexeme) == Some(TokenType::Plus) <==> lexeme == "+"@,
        operator_kind(lexeme) == Some(TokenType::Minus) <==> lexeme == "-"@,
        operator_kind(lexeme) == Some(TokenType::Mul) <==> lexeme == "*"@,
        operator_kind(lexeme) == Some(TokenType::Div) <==> lexeme == "/"@,
        operator_kind(lexeme) == Some(TokenType::Mod) <==> lexeme == "%"@,
        operator_kind(lexeme) == Some(TokenType::Assign) <==> lexeme == "="@,
        operator_kind(lexeme) == Some(TokenType::Equ) <==> lexeme == "=="@,
        operator_kind(lexeme) == Some(TokenType::Nequ) <==> lexeme == "!="@,
        operator_kind(lexeme) == Some(TokenType::And) <==> lexeme == "&&"@,
        operator_kind(lexeme) == Some(TokenType::Or) <==> lexeme == "||"@,
        operator_kind(lexeme) == Some(TokenType::Gt) <==> lexeme == ">"@,
        operator_kind(lexeme) == Some(TokenType::Lt) <==> lexeme == "<"@,
        operator_kind(lexeme) == Some(TokenType::Gte) <==> lexeme == ">="@,
        operator_kind(lexeme) == Some(TokenType::Lte) <==> lexeme == "<="@,
        operator_kind(lexeme) == Some(TokenType::Not) <==> lexeme == "!"@,
        operator_kind(lexeme) == Some(TokenType::BwAnd) <==> lexeme == "&"@,
        operator_kind(lexeme) == Some(TokenType::BwOr) <==> lexeme == "|"@,
        operator_kind(lexeme) == Some(TokenType::BwXor) <==> lexeme == "^"@,
        operator_kind(lexeme) == Some(TokenType::PlusEq) <==> lexeme == "+="@,
        operator_kind(lexeme) == Some(TokenType::MinusEq) <==> lexeme == "-="@,
        operator_kind(lexeme) == Some(TokenType::DivEq) <==> lexeme == "/="@,
        operator_kind(lexeme) == Some(TokenType::ModEq) <==> lexeme == "%="@,
        operator_kind(lexeme) == Some(TokenType::MulEq) <==> lexeme == "*="@,
        operator_kind(lexeme) == Some(TokenType::XorEq) <==> lexeme == "^="@,
        operator_kind(lexeme) == Some(TokenType::Shr) <==> lexeme == ">>"@,
        operator_kind(lexeme) == Some(TokenType::Shl) <==> lexeme == "<<"@,
        operator_kind(lexeme) == Some(TokenType::ShrEq) <==> lexeme == ">>="@,
        operator_kind(lexeme) == Some(TokenType::ShlEq) <==> lexeme == "<<="@,
        operator_kind(lexeme) == Some(TokenType::Ushr) <==> lexeme == ">>>"@,
        operator_kind(lexeme) == Some(TokenType::Incr) <==> lexeme == "++"@,
        operator_kind(lexeme) == Some(TokenType::Decr) <==> lexeme == "--"@,
        operator_kind(lexeme) == Some(TokenType::Pow) <==> lexeme == "**"@,
        operator_kind(lexeme) == Some(TokenType::Substr) <==> lexeme == "><"@,
        operator_kind(lexeme) == Some(TokenType::NSUBSTR) <==> lexeme == ">!<"@,
        operator_kind(lexeme) == Some(TokenType::ReMatch) <==> lexeme == "=~"@,
        operator_kind(lexeme) == Some(TokenType::NreMatch) <==> lexeme == "!~"@,
{
    reveal_strlit("+");
    reveal_strlit("-");
    reveal_strlit("*");
    reveal_strlit("/");
    reveal_strlit("%");
    reveal_strlit("=");
    reveal_strlit("==");
    reveal_strlit("!=");
    reveal_strlit("&&");
    reveal_strlit("||");
    reveal_strlit(">");
    reveal_strlit("<");
    reveal_strlit(">=");
    reveal_strlit("<=");
    reveal_strlit("!");
    reveal_strlit("&");
    reveal_strlit("|");
    reveal_strlit("^");
    reveal_strlit("+=");
    reveal_strlit("-=");
    reveal_strlit("/=");
    reveal_strlit("%=");
    reveal_strlit("*=");
    reveal_strlit("^=");
    reveal_strlit(">>");
    reveal_strlit("<<");
    reveal_strlit(">>=");
    reveal_strlit("<<=");
    reveal_strlit(">>>");
    reveal_strlit("++");
    reveal_strlit("--");
    reveal_strlit("**");
    reveal_strlit("><");
    reveal_strlit(">!<");
    reveal_strlit("=~");
    reveal_strlit("!~");
    if operator_kind(lexeme) == Some(TokenType::Plus) {
        assert(lexeme =~= "+"@);
    }
    if operator_kind(lexeme) == Some(TokenType::Minus) {
        assert(lexeme =~= "-"@);
    }
    if operator_kind(lexeme) == Some(TokenType::Mul) {
        assert(lexeme =~= "*"@);
    }
    if operator_kind(lexeme) == Some(TokenType::Div) {
        assert(lexeme =~= "/"@);
    }
    if operator_kind(lexeme) == Some(TokenType::Mod) {
        assert(lexeme =~= "%"@);
    }
    if operator_kind(lexeme) == Some(TokenType::Assign) {
        assert(lexeme =~= "="@);
    }
    if operator_kind(lexeme) == Some(TokenType::Equ) {
        assert(lexeme =~= "=="@);
    }
    if operator_kind(lexeme) == Some(TokenType::Nequ) {
        assert(lexeme =~= "!="@);
    }
    if operator_kind(lexeme) == Some(TokenType::And) {
        assert(lexeme =~= "&&"@);
    }
    if operator_kind(lexeme) == Some(TokenType::Or) {
        assert(lexeme =~= "||"@);
    }
    if operator_kind(lexeme) == Some(TokenType::Gt) {
        assert(lexeme =~= ">"@);
    }
    if operator_kind(lexeme) == Some(TokenType::Lt) {
        assert(lexeme =~= "<"@);
    }
    if operator_kind(lexeme) == Some(TokenType::Gte) {
        assert(lexeme =~= ">="@);
    }
    if operator_kind(lexeme) == Some(TokenType::Lte) {
        assert(lexeme =~= "<="@);
    }
    if operator_kind(lexeme) == Some(TokenType::Not) {
        assert(lexeme =~= "!"@);
    }
    if operator_kind(lexeme) == Some(TokenType::BwAnd) {
        assert(lexeme =~= "&"@);
    }
    if operator_kind(lexeme) == Some(TokenType::BwOr) {
        assert(lexeme =~= "|"@);
    }
    if operator_kind(lexeme) == Some(TokenType::BwXor) {
        assert(lexeme =~= "^"@);
    }
    if operator_kind(lexeme) == Some(TokenType::PlusEq) {
        assert(lexeme =~= "+="@);
    }
    if operator_kind(lexeme) == Some(TokenType::MinusEq) {
        assert(lexeme =~= "-="@);
    }
    if operator_kind(lexeme) == Some(TokenType::DivEq) {
        assert(lexeme =~= "/="@);
    }
    if operator_kind(lexeme) == Some(TokenType::ModEq) {
        assert(lexeme =~= "%="@);
    }
    if operator_kind(lexeme) == Some(TokenType::MulEq) {
        assert(lexeme =~= "*="@);
    }
    if operator_kind(lexeme) == Some(TokenType::XorEq) {
        assert(lexeme =~= "^="@);
    }
    if operator_kind(lexeme) == Some(TokenType::Shr) {
        assert(lexeme =~= ">>"@);
    }
    if operator_kind(lexeme) == Some(TokenType::Shl) {
        assert(lexeme =~= "<<"@);
    }
    if operator_kind(lexeme) == Some(TokenType::ShrEq) {
        assert(lexeme =~= ">>="@);
    }
    if operator_kind(lexeme) == Some(TokenType::ShlEq) {
        assert(lexeme =~= "<<="@);
    }
    if operator_kind(lexeme) == Some(TokenType::Ushr) {
        assert(lexeme =~= ">>>"@);
    }
    if operator_kind(lexeme) == Some(TokenType::Incr) {
        assert(lexeme =~= "++"@);
    }
    if operator_kind(lexeme) == Some(TokenType::Decr) {
        assert(lexeme =~= "--"@);
    }
    if operator_kind(lexeme) == Some(TokenType::Pow) {
        assert(lexeme =~= "**"@);
    }
    if operator_kind(lexeme) == Some(TokenType::Substr) {
        assert(lexeme =~= "><"@);
    }
    if operator_kind(lexeme) == Some(TokenType::NSUBSTR) {
        assert(lexeme =~= ">!<"@);
    }
    if operator_kind(lexeme) == Some(TokenType::ReMatch) {
        assert(lexeme =~= "=~"@);
    }
    if operator_kind(lexeme) == Some(TokenType::NreMatch) {
        assert(lexeme =~= "!~"@);
    }
}

impl<'a> View for Token<'a> {
    type V = TokenView;

    open spec fn view(&self) -> TokenView {
        match *self {
            Token::Ident(text) => TokenView::ident(text@),
            Token::PureStr(text) => TokenView::pure_str(text@),
            Token::ImpureStr(text) => TokenView::impure_str(text@),
            Token::Num(value) => TokenView::num(value as int),
            _ => TokenView::plain(self.spec_ty()),
        }
    }
}

impl<'a> Token<'a> {
    /// The kind of the token.
    pub open spec fn spec_ty(&self) -> TokenType {
        match *self {
            Token::Plus => TokenType::Plus,
            Token::Minus => TokenType::Minus,
            Token::Mul => TokenType::Mul,
            Token::Div => TokenType::Div,
            Token::Mod => TokenType::Mod,
            Token::Assign => TokenType::Assign,
            Token::Equ => TokenType::Equ,
            Token::Nequ => TokenType::Nequ,
            Token::And => TokenType::And,
            Token::Or => TokenType::Or,
            Token::Gt => TokenType::Gt,
            Token::Lt => TokenType::Lt,
            Token::Gte => TokenType::Gte,
            Token::Lte => TokenType::Lte,
            Token::Not => TokenType::Not,
            Token::BwAnd => TokenType::BwAnd,
            Token::BwOr => TokenType::BwOr,
            Token::BwXor => TokenType::BwXor,
            Token::PlusEq => TokenType::PlusEq,
            Token::MinusEq => TokenType::MinusEq,
            Token::DivEq => TokenType::DivEq,
            Token::ModEq => TokenType::ModEq,
            Token::MulEq => TokenType::MulEq,
            Token::XorEq => TokenType::XorEq,
            Token::Shr => TokenType::Shr,
            Token::Shl => TokenType::Shl,
            Token::ShrEq => TokenType::ShrEq,
            Token::ShlEq => TokenType::ShlEq,
            Token::Ushr => TokenType::Ushr,
            Token::Incr => TokenType::Incr,
            Token::Decr => TokenType::Decr,
            Token::Pow => TokenType::Pow,
            Token::Substr => TokenType::Substr,
            Token::NSUBSTR => TokenType::NSUBSTR,
            Token::ReMatch => TokenType::ReMatch,
            Token::NreMatch => TokenType::NreMatch,
            Token::If => TokenType::If,
            Token::Else => TokenType::Else,
            Token::Lparan => TokenType::Lparan,
            Token::Rparan => TokenType::Rparan,
            Token::Lbrace => TokenType::Lbrace,
            Token::Rbrace => TokenType::Rbrace,
            Token::Lbracket => TokenType::Lbracket,
            Token::Rbracket => TokenType::Rbracket,
            Token::SemiColon => TokenType::SemiColon,
            Token::Comma => TokenType::Comma,
            Token::Ident(_) => TokenType::Ident,
            Token::PureStr(_) => TokenType::PureStr,
            Token::ImpureStr(_) => TokenType::ImpureStr,
            Token::Colon => TokenType::Colon,
            Token::Num(_) => TokenType::Num,
            Token::Eof => TokenType::Eof,
            Token::Comment => TokenType::Comment,
            Token::Function => TokenType::Function,
            Token::Null => TokenType::Null,
            Token::True => TokenType::True,
            Token::False => TokenType::False,
            Token::Return => TokenType::Return,
            Token::For => TokenType::For,
            Token::While => TokenType::While,
            Token::Break => TokenType::Break,
            Token::Continue => TokenType::Continue,
            Token::Foreach => TokenType::Foreach,
            Token::Include => TokenType::Include,
            Token::LocalVar => TokenType::LocalVar,
            Token::GlobalVar => TokenType::GlobalVar,
            Token::Repeat => TokenType::Repeat,
            Token::Until => TokenType::Until,
        }
    }

    /// The kind of the token.
    #[verifier::when_used_as_spec(spec_ty)]
    pub fn ty(&self) -> (ty: TokenType)
        ensures
            ty == self.spec_ty(),
            ty == self@.ty,
    {
        match *self {
            Token::Plus => TokenType::Plus,
            Token::Minus => TokenType::Minus,
            Token::Mul => TokenType::Mul,
            Token::Div => TokenType::Div,
            Token::Mod => TokenType::Mod,
            Token::Assign => TokenType::Assign,
            Token::Equ => TokenType::Equ,
            Token::Nequ => TokenType::Nequ,
            Token::And => TokenType::And,
            Token::Or => TokenType::Or,
            Token::Gt => TokenType::Gt,
            Token::Lt => TokenType::Lt,
            Token::Gte => TokenType::Gte,
            Token::Lte => TokenType::Lte,
            Token::Not => TokenType::Not,
            Token::BwAnd => TokenType::BwAnd,
            Token::BwOr => TokenType::BwOr,
            Token::BwXor => TokenType::BwXor,
            Token::PlusEq => TokenType::PlusEq,
            Token::MinusEq => TokenType::MinusEq,
            Token::DivEq => TokenType::DivEq,
            Token::ModEq => TokenType::ModEq,
            Token::MulEq => TokenType::MulEq,
            Token::XorEq => TokenType::XorEq,
            Token::Shr => TokenType::Shr,
            Token::Shl => TokenType::Shl,
            Token::ShrEq => TokenType::ShrEq,
            Token::ShlEq => TokenType::ShlEq,
            Token::Ushr => TokenType::Ushr,
            Token::Incr => TokenType::Incr,
            Token::Decr => TokenType::Decr,
            Token::Pow => TokenType::Pow,
            Token::Substr => TokenType::Substr,
            Token::NSUBSTR => TokenType::NSUBSTR,
            Token::ReMatch => TokenType::ReMatch,
            Token::NreMatch => TokenType::NreMatch,
            Token::If => TokenType::If,
            Token::Else => TokenType::Else,
            Token::Lparan => TokenType::Lparan,
            Token::Rparan => TokenType::Rparan,
            Token::Lbrace => TokenType::Lbrace,
            Token::Rbrace => TokenType::Rbrace,
            Token::Lbracket => TokenType::Lbracket,
            Token::Rbracket => TokenType::Rbracket,
            Token::SemiColon => TokenType::SemiColon,
            Token::Comma => TokenType::Comma,
            Token::Ident(_) => TokenType::Ident,
            Token::PureStr(_) => TokenType::PureStr,
            Token::ImpureStr(_) => TokenType::ImpureStr,
            Token::Colon => TokenType::Colon,
            Token::Num(_) => TokenType::Num,
            Token::Eof => TokenType::Eof,
            Token::Comment => TokenType::Comment,
            Token::Function => TokenType::Function,
            Token::Null => TokenType::Null,
            Token::True => TokenType::True,
            Token::False => TokenType::False,
            Token::Return => TokenType::Return,
            Token::For => TokenType::For,
            Token::While => TokenType::While,
            Token::Break => TokenType::Break,
            Token::Continue => TokenType::Continue,
            Token::Foreach => TokenType::Foreach,
            Token::Include => TokenType::Include,
            Token::LocalVar => TokenType::LocalVar,
            Token::GlobalVar => TokenType::GlobalVar,
            Token::Repeat => TokenType::Repeat,
            Token::Until => TokenType::Until,
        }
    }

    /// Classifies a scanned word: the keyword it spells, or else an
    /// identifier that carries the word itself.
    pub fn from_ident(literal: &'a str) -> (token: Self)
        ensures
            token@ == word_token(literal@),
            token matches Token::Ident(text) ==> text == literal,
    {
        if str_eq(literal, "if") {
            Token::If
        } else if str_eq(literal, "else") {
            Token::Else
        } else if str_eq(literal, "function") {
            Token::Function
        } else if str_eq(literal, "NULL") {
            Token::Null
        } else if str_eq(literal, "TRUE") {
            Token::True
        } else if str_eq(literal, "FALSE") {
            Token::False
        } else if str_eq(literal, "return") {
            Token::Return
        } else if str_eq(literal, "for") {
            Token::For
        } else if str_eq(literal, "while") {
            Token::While
        } else if str_eq(literal, "break") {
            Token::Break
        } else if str_eq(literal, "continue") {
            Token::Continue
        } else if str_eq(literal, "foreach") {
            Token::Foreach
        } else if str_eq(literal, "include") {
            Token::Include
        } else if str_eq(literal, "local_var") {
            Token::LocalVar
        } else if str_eq(literal, "global_var") {
            Token::GlobalVar
        } else if str_eq(literal, "repeat") {
            Token::Repeat
        } else if str_eq(literal, "until") {
            Token::Until
        } else {
            Token::Ident(literal)
        }
    }

    /// The token of an operator, from its spelling. Only operators are
    /// known here: `literal` must be one of them.
    pub fn from_str(literal: &'a str) -> (token: Self)
        requires
            operator_kind(literal@) is Some,
        ensures
            token@ == TokenView::plain(operator_kind(literal@)->0),
    {
        proof {
            lemma_operator_spelling(literal@);
        }
        if str_eq(literal, "+") {
            Token::Plus
        } else if str_eq(literal, "-") {
            Token::Minus
        } else if str_eq(literal, "*") {
            Token::Mul
        } else if str_eq(literal, "/") {
            Token::Div
        } else if str_eq(literal, "%") {
            Token::Mod
        } else if str_eq(literal, "=") {
            Token::Assign
        } else if str_eq(literal, "==") {
            Token::Equ
        } else if str_eq(literal, "!=") {
            Token::Nequ
        } else if str_eq(literal, "&&") {
            Token::And
        } else if str_eq(literal, "||") {
            Token::Or
        } else if str_eq(literal, ">") {
            Token::Gt
        } else if str_eq(literal, "<") {
            Token::Lt
        } else if str_eq(literal, ">=") {
            Token::Gte
        } else if str_eq(literal, "<=") {
            Token::Lte
        } else if str_eq(literal, "!") {
            Token::Not
        } else if str_eq(literal, "&") {
            Token::BwAnd
        } else if str_eq(literal, "|") {
            Token::BwOr
        } else if str_eq(literal, "^") {
            Token::BwXor
        } else if str_eq(literal, "+=") {
            Token::PlusEq
        } else if str_eq(literal, "-=") {
            Token::MinusEq
        } else if str_eq(literal, "/=") {
            Token::DivEq
        } else if str_eq(literal, "%=") {
            Token::ModEq
        } else if str_eq(literal, "*=") {
            Token::MulEq
        } else if str_eq(literal, "^=") {
            Token::XorEq
        } else if str_eq(literal, ">>") {
            Token::Shr
        } else if str_eq(literal, "<<") {
            Token::Shl
        } else if str_eq(literal, ">>=") {
            Token::ShrEq
        } else if str_eq(literal, "<<=") {
            Token::ShlEq
        } else if str_eq(literal, ">>>") {
            Token::Ushr
        } else if str_eq(literal, "++") {
            Token::Incr
        } else if str_eq(literal, "--") {
            Token::Decr
        } else if str_eq(literal, "**") {
            Token::Pow
        } else if str_eq(literal, "><") {
            Token::Substr
        } else if str_eq(literal, ">!<") {
            Token::NSUBSTR
        } else if str_eq(literal, "=~") {
            Token::ReMatch
        } else if str_eq(literal, "!~") {
            Token::NreMatch
        } else {
            unreached()
        }
    }
}

} // verus!
