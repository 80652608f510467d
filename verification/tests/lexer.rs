use nasl_transpiler::error::LexError;
use nasl_transpiler::lexer::Lexer;
use nasl_transpiler::token::{Token, TokenType};

fn tokens(data: &str) -> Vec<Result<Token<'_>, LexError<'_>>> {
    let mut lexer = Lexer::new(data);
    let mut out = Vec::new();
    loop {
        let next = lexer.next_token();
        let done = matches!(next, Ok(Token::Eof) | Err(_));
        out.push(next);
        if done {
            return out;
        }
    }
}

#[test]
fn numbers() {
    let data = "0xFF 016 32 018 0xCZ";
    let mut lexer = Lexer::new(data);
    assert_eq!(Token::Num(0xff), lexer.next_token().unwrap());
    assert_eq!(Token::Num(0o16), lexer.next_token().unwrap());
    assert_eq!(Token::Num(32), lexer.next_token().unwrap());
    assert!(lexer.next_token().is_err());
    assert!(lexer.next_token().is_err());
}

#[test]
fn operators() {
    let ops = [
        "+", "-", "*", "/", "%", "=", "==", "!=", "&&", "||", ">", "<", ">=", "<=", "!", "&",
        "|", "^", "+=", "-=", "/=", "%=", "*=", "^=", ">>", "<<", ">>=", "<<=", ">>>", "++",
        "--", "**", "><", ">!<", "=~", "!~",
    ];
    let data = ops.join(" ");
    let mut lexer = Lexer::new(data.as_str());
    let mut ops_iter = ops.iter();
    while let Ok(tok) = lexer.next_token() {
        if tok == Token::Eof {
            break;
        }
        assert_eq!(Token::from_str(ops_iter.next().unwrap()), tok);
    }
    assert_eq!(ops_iter.next(), None);
}

#[test]
fn escape_chars() {
    let data = r#"
            '\n' '\r' '\t' '\b' '\\' '\'' '\"' '\v' '\F'
        "#;

    let expected = ["\\n", "\\r", "\\t", "\\b", "\\\\", "\\'", "\\\"", "\\v"];

    let mut lexer = Lexer::new(data);
    for exp in &expected {
        assert_eq!(Ok(Token::PureStr(exp)), lexer.next_token());
    }
    assert!(lexer.next_token().is_err());
}

#[test]
fn operators_in_order_then_eof() {
    let got = tokens("+ - * / % = == != && || > < >= <= ! & | ^ += -= /= %= *= ^= >> << >>= <<= >>> ++ -- ** >< >!< =~ !~");
    let want = [
        Token::Plus,
        Token::Minus,
        Token::Mul,
        Token::Div,
        Token::Mod,
        Token::Assign,
        Token::Equ,
        Token::Nequ,
        Token::And,
        Token::Or,
        Token::Gt,
        Token::Lt,
        Token::Gte,
        Token::Lte,
        Token::Not,
        Token::BwAnd,
        Token::BwOr,
        Token::BwXor,
        Token::PlusEq,
        Token::MinusEq,
        Token::DivEq,
        Token::ModEq,
        Token::MulEq,
        Token::XorEq,
        Token::Shr,
        Token::Shl,
        Token::ShrEq,
        Token::ShlEq,
        Token::Ushr,
        Token::Incr,
        Token::Decr,
        Token::Pow,
        Token::Substr,
        Token::NSUBSTR,
        Token::ReMatch,
        Token::NreMatch,
        Token::Eof,
    ];
    assert_eq!(got.len(), want.len());
    for (g, w) in got.iter().zip(want.iter()) {
        assert_eq!(g, &Ok(*w));
    }
}

#[test]
fn operators_in_any_order() {
    let mut ops = vec![
        "+", "-", "*", "/", "%", "=", "==", "!=", "&&", "||", ">", "<", ">=", "<=", "!", "&",
        "|", "^", "+=", "-=", "/=", "%=", "*=", "^=", ">>", "<<", ">>=", "<<=", ">>>", "++",
        "--", "**", "><", ">!<", "=~", "!~",
    ];
    for round in 0..ops.len() {
        ops.rotate_left(1);
        if round % 2 == 0 {
            ops.reverse();
        }
        let data = ops.join(" ");
        let got = tokens(&data);
        assert_eq!(got.len(), ops.len() + 1);
        for (g, op) in got.iter().zip(ops.iter()) {
            assert_eq!(g, &Ok(Token::from_str(op)));
        }
        assert_eq!(got[ops.len()], Ok(Token::Eof));
    }
}

#[test]
fn operator_at_end_of_input() {
    assert_eq!(tokens(">"), vec![Ok(Token::Gt), Ok(Token::Eof)]);
    assert_eq!(tokens(">>"), vec![Ok(Token::Shr), Ok(Token::Eof)]);
    assert_eq!(tokens("<<"), vec![Ok(Token::Shl), Ok(Token::Eof)]);
    assert_eq!(tokens(">!<"), vec![Ok(Token::NSUBSTR), Ok(Token::Eof)]);
}

#[test]
fn longest_operator_wins() {
    assert_eq!(tokens(">>>="), vec![Ok(Token::Ushr), Ok(Token::Assign), Ok(Token::Eof)]);
    assert_eq!(tokens(">>=="), vec![Ok(Token::ShrEq), Ok(Token::Assign), Ok(Token::Eof)]);
    assert_eq!(tokens("<<<"), vec![Ok(Token::Shl), Ok(Token::Lt), Ok(Token::Eof)]);
    assert_eq!(tokens("+++"), vec![Ok(Token::Incr), Ok(Token::Plus), Ok(Token::Eof)]);
    assert_eq!(tokens("==="), vec![Ok(Token::Equ), Ok(Token::Assign), Ok(Token::Eof)]);
    assert_eq!(tokens("&&&"), vec![Ok(Token::And), Ok(Token::BwAnd), Ok(Token::Eof)]);
    assert_eq!(tokens("a>=b"), vec![
        Ok(Token::Ident("a")),
        Ok(Token::Gte),
        Ok(Token::Ident("b")),
        Ok(Token::Eof),
    ]);
}

#[test]
fn operators_take_nothing_that_follows_them() {
    assert_eq!(tokens("a<<b"), vec![
        Ok(Token::Ident("a")),
        Ok(Token::Shl),
        Ok(Token::Ident("b")),
        Ok(Token::Eof),
    ]);
    assert_eq!(tokens("a<<=1"), vec![
        Ok(Token::Ident("a")),
        Ok(Token::ShlEq),
        Ok(Token::Num(1)),
        Ok(Token::Eof),
    ]);
    assert_eq!(tokens("a>!<b"), vec![
        Ok(Token::Ident("a")),
        Ok(Token::NSUBSTR),
        Ok(Token::Ident("b")),
        Ok(Token::Eof),
    ]);
    assert_eq!(tokens("a>>b>>>c>>=d"), vec![
        Ok(Token::Ident("a")),
        Ok(Token::Shr),
        Ok(Token::Ident("b")),
        Ok(Token::Ushr),
        Ok(Token::Ident("c")),
        Ok(Token::ShrEq),
        Ok(Token::Ident("d")),
        Ok(Token::Eof),
    ]);
    assert_eq!(tokens("(<<)"), vec![
        Ok(Token::Lparan),
        Ok(Token::Shl),
        Ok(Token::Rparan),
        Ok(Token::Eof),
    ]);
}

#[test]
fn negated_substring_needs_its_third_character() {
    let mut lexer = Lexer::new(">!x");
    assert_eq!(lexer.next_token(), Err(LexError::ExpectedLt(Some('x'))));
    // The cursor was left on the `!`.
    assert_eq!(lexer.next_token(), Ok(Token::Not));
    assert_eq!(lexer.next_token(), Ok(Token::Ident("x")));
    assert_eq!(lexer.next_token(), Ok(Token::Eof));

    let mut lexer = Lexer::new(">!");
    assert_eq!(lexer.next_token(), Err(LexError::ExpectedLt(None)));
    assert_eq!(lexer.next_token(), Ok(Token::Not));
    assert_eq!(lexer.next_token(), Ok(Token::Eof));
}

#[test]
fn delimiters() {
    assert_eq!(tokens("(){}[];:,"), vec![
        Ok(Token::Lparan),
        Ok(Token::Rparan),
        Ok(Token::Lbrace),
        Ok(Token::Rbrace),
        Ok(Token::Lbracket),
        Ok(Token::Rbracket),
        Ok(Token::SemiColon),
        Ok(Token::Colon),
        Ok(Token::Comma),
        Ok(Token::Eof),
    ]);
}

#[test]
fn identifier_round_trip() {
    for word in ["a", "_", "_x", "foo_Bar9", "IF", "iffy", "function_", "x1y2z3"] {
        assert_eq!(tokens(word), vec![Ok(Token::Ident(word)), Ok(Token::Eof)]);
    }
}

#[test]
fn identifier_borrows_from_the_source() {
    let data = String::from("  alpha beta");
    let mut lexer = Lexer::new(data.as_str());
    match lexer.next_token() {
        Ok(Token::Ident(text)) => {
            assert_eq!(text, "alpha");
            assert_eq!(text.as_ptr(), data[2..].as_ptr());
        }
        other => panic!("unexpected {:?}", other),
    }
}

#[test]
fn keywords_have_their_own_kind() {
    let table = [
        ("if", Token::If),
        ("else", Token::Else),
        ("function", Token::Function),
        ("NULL", Token::Null),
        ("TRUE", Token::True),
        ("FALSE", Token::False),
        ("return", Token::Return),
        ("for", Token::For),
        ("while", Token::While),
        ("break", Token::Break),
        ("continue", Token::Continue),
        ("foreach", Token::Foreach),
        ("include", Token::Include),
        ("local_var", Token::LocalVar),
        ("global_var", Token::GlobalVar),
        ("repeat", Token::Repeat),
        ("until", Token::Until),
    ];
    for (word, token) in table {
        assert_eq!(tokens(word), vec![Ok(token), Ok(Token::Eof)]);
        assert_eq!(Token::from_ident(word), token);
    }
}

#[test]
fn keyword_inside_a_longer_word_is_an_identifier() {
    assert_eq!(tokens("iffy"), vec![Ok(Token::Ident("iffy")), Ok(Token::Eof)]);
    assert_eq!(tokens("if fy"), vec![Ok(Token::If), Ok(Token::Ident("fy")), Ok(Token::Eof)]);
    assert_eq!(tokens("null"), vec![Ok(Token::Ident("null")), Ok(Token::Eof)]);
    assert_eq!(tokens("for1"), vec![Ok(Token::Ident("for1")), Ok(Token::Eof)]);
    assert_eq!(tokens("if("), vec![Ok(Token::If), Ok(Token::Lparan), Ok(Token::Eof)]);
}

#[test]
fn number_boundaries() {
    assert_eq!(tokens("0xFF"), vec![Ok(Token::Num(255)), Ok(Token::Eof)]);
    assert_eq!(tokens("016"), vec![Ok(Token::Num(14)), Ok(Token::Eof)]);
    assert_eq!(tokens("32"), vec![Ok(Token::Num(32)), Ok(Token::Eof)]);
    assert_eq!(tokens("018"), vec![Err(LexError::InvalidOctal)]);
    assert_eq!(tokens("0xCZ"), vec![Err(LexError::InvalidHexDigit('Z'))]);
}

#[test]
fn hexadecimal_literals() {
    assert_eq!(tokens("0x0"), vec![Ok(Token::Num(0)), Ok(Token::Eof)]);
    assert_eq!(tokens("0xabcdef"), vec![Ok(Token::Num(0xabcdef)), Ok(Token::Eof)]);
    assert_eq!(tokens("0XAb"), vec![Ok(Token::Num(0xab)), Ok(Token::Eof)]);
    assert_eq!(tokens("0x7FFFFFFF"), vec![Ok(Token::Num(i32::MAX)), Ok(Token::Eof)]);
    assert_eq!(tokens("0x00000000000000000001"), vec![Ok(Token::Num(1)), Ok(Token::Eof)]);
    assert_eq!(tokens("0x80000000"), vec![Err(LexError::HexOutOfRange)]);
    assert_eq!(tokens("0xFFFFFFFFFFFFFFFFFFFFFFFF"), vec![Err(LexError::HexOutOfRange)]);
    assert_eq!(tokens("0x"), vec![Err(LexError::MissingHexDigits)]);
    assert_eq!(tokens("0x "), vec![Err(LexError::MissingHexDigits)]);
    assert_eq!(tokens("0xg"), vec![Err(LexError::InvalidHexDigit('g'))]);
    assert_eq!(tokens("0xFF;"), vec![Err(LexError::InvalidHexDigit(';'))]);
    assert_eq!(tokens("0xFF\n"), vec![Err(LexError::InvalidHexDigit('\n'))]);
    assert_eq!(tokens("0x1 0x2"), vec![Ok(Token::Num(1)), Ok(Token::Num(2)), Ok(Token::Eof)]);
}

#[test]
fn octal_literals() {
    assert_eq!(tokens("00"), vec![Ok(Token::Num(0)), Ok(Token::Eof)]);
    assert_eq!(tokens("0777"), vec![Ok(Token::Num(0o777)), Ok(Token::Eof)]);
    assert_eq!(tokens("017777777777"), vec![Ok(Token::Num(i32::MAX)), Ok(Token::Eof)]);
    assert_eq!(tokens("020000000000"), vec![Err(LexError::InvalidOctal)]);
    assert_eq!(tokens("09"), vec![Err(LexError::InvalidOctal)]);
    assert_eq!(tokens("017)"), vec![Err(LexError::InvalidOctalDigit(')'))]);
    assert_eq!(tokens("01a"), vec![Err(LexError::InvalidOctalDigit('a'))]);
}

#[test]
fn decimal_literals() {
    assert_eq!(tokens("7"), vec![Ok(Token::Num(7)), Ok(Token::Eof)]);
    assert_eq!(tokens("2147483647"), vec![Ok(Token::Num(i32::MAX)), Ok(Token::Eof)]);
    assert_eq!(tokens("2147483648"), vec![Err(LexError::InvalidNumber("2147483648"))]);
    assert_eq!(
        tokens("99999999999999999999999"),
        vec![Err(LexError::InvalidNumber("99999999999999999999999"))]
    );
    assert_eq!(tokens("12;"), vec![Ok(Token::Num(12)), Ok(Token::SemiColon), Ok(Token::Eof)]);
    assert_eq!(tokens("12ab"), vec![Ok(Token::Num(12)), Ok(Token::Ident("ab")), Ok(Token::Eof)]);
    assert_eq!(tokens("1+2"), vec![
        Ok(Token::Num(1)),
        Ok(Token::Plus),
        Ok(Token::Num(2)),
        Ok(Token::Eof),
    ]);
}

#[test]
fn bare_zero_is_an_error_and_stays_one() {
    let mut lexer = Lexer::new("0");
    assert_eq!(lexer.next_token(), Err(LexError::BareZero(None)));
    assert_eq!(lexer.next_token(), Err(LexError::BareZero(None)));

    let mut lexer = Lexer::new("0;");
    assert_eq!(lexer.next_token(), Err(LexError::BareZero(Some(';'))));
    assert_eq!(lexer.next_token(), Err(LexError::BareZero(Some(';'))));

    assert_eq!(tokens("0 1"), vec![Err(LexError::BareZero(Some(' ')))]);
}

#[test]
fn after_a_number_error_scanning_goes_on_behind_it() {
    let mut lexer = Lexer::new("018 7 2147483648 9");
    assert_eq!(lexer.next_token(), Err(LexError::InvalidOctal));
    assert_eq!(lexer.next_token(), Ok(Token::Num(7)));
    assert_eq!(lexer.next_token(), Err(LexError::InvalidNumber("2147483648")));
    assert_eq!(lexer.next_token(), Ok(Token::Num(9)));
    assert_eq!(lexer.next_token(), Ok(Token::Eof));
}

#[test]
fn pure_strings_keep_their_escapes() {
    assert_eq!(tokens(r"'\n'"), vec![Ok(Token::PureStr("\\n")), Ok(Token::Eof)]);
    match tokens(r"'\n'")[0] {
        Ok(Token::PureStr(text)) => assert_eq!(text.chars().collect::<Vec<_>>(), vec!['\\', 'n']),
        other => panic!("unexpected {:?}", other),
    }
    assert_eq!(tokens("''"), vec![Ok(Token::PureStr("")), Ok(Token::Eof)]);
    assert_eq!(tokens(r"'a\'b'"), vec![Ok(Token::PureStr(r"a\'b")), Ok(Token::Eof)]);
    assert_eq!(tokens(r"'a\\'"), vec![Ok(Token::PureStr(r"a\\")), Ok(Token::Eof)]);
    assert_eq!(tokens("'a\"b' c"), vec![
        Ok(Token::PureStr("a\"b")),
        Ok(Token::Ident("c")),
        Ok(Token::Eof),
    ]);
    assert_eq!(tokens("'line\nbreak'"), vec![Ok(Token::PureStr("line\nbreak")), Ok(Token::Eof)]);
}

#[test]
fn pure_string_errors() {
    assert_eq!(tokens(r"'\F'"), vec![Err(LexError::InvalidEscape('F'))]);
    assert_eq!(tokens(r"'ab\0'"), vec![Err(LexError::InvalidEscape('0'))]);
    assert_eq!(tokens("'abc"), vec![Err(LexError::UnterminatedString)]);
    assert_eq!(tokens("'"), vec![Err(LexError::UnterminatedString)]);
    assert_eq!(tokens(r"'abc\"), vec![Err(LexError::UnterminatedString)]);
    assert_eq!(tokens(r"'abc\'"), vec![Err(LexError::UnterminatedString)]);

    // The cursor stays on the character that is no escape.
    let mut lexer = Lexer::new(r"'\F' x");
    assert_eq!(lexer.next_token(), Err(LexError::InvalidEscape('F')));
    assert_eq!(lexer.next_token(), Ok(Token::Ident("F")));
}

#[test]
fn impure_strings_are_taken_as_they_are() {
    let body = r"anything inside double quotes, including \n literally";
    let data = format!("\"{}\"", body);
    assert_eq!(tokens(&data), vec![Ok(Token::ImpureStr(body)), Ok(Token::Eof)]);
    assert_eq!(tokens("\"\""), vec![Ok(Token::ImpureStr("")), Ok(Token::Eof)]);
    assert_eq!(tokens("\"it's\""), vec![Ok(Token::ImpureStr("it's")), Ok(Token::Eof)]);
    assert_eq!(tokens("\"# no comment\""), vec![Ok(Token::ImpureStr("# no comment")), Ok(Token::Eof)]);
    // A backslash does not protect a quote.
    assert_eq!(tokens(r#""a\"b"#), vec![
        Ok(Token::ImpureStr("a\\")),
        Ok(Token::Ident("b")),
        Ok(Token::Eof),
    ]);
    assert_eq!(tokens("\"abc"), vec![Err(LexError::UnterminatedString)]);
    assert_eq!(tokens("\""), vec![Err(LexError::UnterminatedString)]);
}

#[test]
fn text_outside_ascii() {
    assert_eq!(tokens("\"h\u{e9}llo \u{4e16}\u{754c} \u{1f600}\" x"), vec![
        Ok(Token::ImpureStr("h\u{e9}llo \u{4e16}\u{754c} \u{1f600}")),
        Ok(Token::Ident("x")),
        Ok(Token::Eof),
    ]);
    assert_eq!(tokens("'\u{e9}t\u{e9}' + 1"), vec![
        Ok(Token::PureStr("\u{e9}t\u{e9}")),
        Ok(Token::Plus),
        Ok(Token::Num(1)),
        Ok(Token::Eof),
    ]);
    assert_eq!(tokens("# caf\u{e9}\nab\u{e9}"), vec![
        Ok(Token::Ident("ab")),
        Err(LexError::UnexpectedChar('\u{e9}')),
    ]);
    assert_eq!(tokens("1\u{b2}"), vec![Ok(Token::Num(1)), Err(LexError::UnexpectedChar('\u{b2}'))]);
}

#[test]
fn comments_vanish() {
    assert_eq!(tokens("a # comment to end of line\nb"), vec![
        Ok(Token::Ident("a")),
        Ok(Token::Ident("b")),
        Ok(Token::Eof),
    ]);
    assert_eq!(tokens("# only a comment"), vec![Ok(Token::Eof)]);
    assert_eq!(tokens("#\n#\n  # x\n;"), vec![Ok(Token::SemiColon), Ok(Token::Eof)]);
    assert_eq!(tokens("a#b\n#c"), vec![Ok(Token::Ident("a")), Ok(Token::Eof)]);
    assert_eq!(tokens("# ' \" 0 @\n1"), vec![Ok(Token::Num(1)), Ok(Token::Eof)]);
}

#[test]
fn blanks_are_skipped() {
    assert_eq!(tokens(" \t\r\n\u{c}a\t\tb\r\n"), vec![
        Ok(Token::Ident("a")),
        Ok(Token::Ident("b")),
        Ok(Token::Eof),
    ]);
    // A vertical tab is no blank.
    assert_eq!(tokens("\u{b}"), vec![Err(LexError::UnexpectedChar('\u{b}'))]);
}

#[test]
fn eof_is_returned_again_and_again() {
    for data in ["", " ", "\n\n", "# comment", "# comment\n  "] {
        let mut lexer = Lexer::new(data);
        for _ in 0..5 {
            assert_eq!(lexer.next_token(), Ok(Token::Eof));
        }
    }
    let mut lexer = Lexer::new("x");
    assert_eq!(lexer.next_token(), Ok(Token::Ident("x")));
    for _ in 0..5 {
        assert_eq!(lexer.next_token(), Ok(Token::Eof));
    }
}

#[test]
fn unexpected_character_is_reported_and_not_consumed() {
    let mut lexer = Lexer::new("a @");
    assert_eq!(lexer.next_token(), Ok(Token::Ident("a")));
    assert_eq!(lexer.next_token(), Err(LexError::UnexpectedChar('@')));
    assert_eq!(lexer.next_token(), Err(LexError::UnexpectedChar('@')));
    for c in ['~', '$', '?', '.', '`', '\\'] {
        let data = c.to_string();
        assert_eq!(tokens(&data), vec![Err(LexError::UnexpectedChar(c))]);
    }
}

#[test]
fn a_small_program() {
    let data = "function f(a, b) {\n  local_var x; # sum\n  x = a + 0x10 ;\n  if (x >< 'n\\n') return TRUE;\n}\n";
    assert_eq!(tokens(data), vec![
        Ok(Token::Function),
        Ok(Token::Ident("f")),
        Ok(Token::Lparan),
        Ok(Token::Ident("a")),
        Ok(Token::Comma),
        Ok(Token::Ident("b")),
        Ok(Token::Rparan),
        Ok(Token::Lbrace),
        Ok(Token::LocalVar),
        Ok(Token::Ident("x")),
        Ok(Token::SemiColon),
        Ok(Token::Ident("x")),
        Ok(Token::Assign),
        Ok(Token::Ident("a")),
        Ok(Token::Plus),
        Ok(Token::Num(16)),
        Ok(Token::SemiColon),
        Ok(Token::If),
        Ok(Token::Lparan),
        Ok(Token::Ident("x")),
        Ok(Token::Substr),
        Ok(Token::PureStr("n\\n")),
        Ok(Token::Rparan),
        Ok(Token::Return),
        Ok(Token::True),
        Ok(Token::SemiColon),
        Ok(Token::Rbrace),
        Ok(Token::Eof),
    ]);
}

#[test]
fn from_ident_classifies_words() {
    assert_eq!(Token::from_ident("while"), Token::While);
    assert_eq!(Token::from_ident("While"), Token::Ident("While"));
    assert_eq!(Token::from_ident("whil"), Token::Ident("whil"));
    assert_eq!(Token::from_ident("whiles"), Token::Ident("whiles"));
    assert_eq!(Token::from_ident(""), Token::Ident(""));
    assert_eq!(Token::from_ident("local_var"), Token::LocalVar);
    assert_eq!(Token::from_ident("localvar"), Token::Ident("localvar"));
}

#[test]
fn from_str_knows_every_operator() {
    assert_eq!(Token::from_str("+"), Token::Plus);
    assert_eq!(Token::from_str(">!<"), Token::NSUBSTR);
    assert_eq!(Token::from_str(">>>"), Token::Ushr);
    assert_eq!(Token::from_str("!~"), Token::NreMatch);
    assert_eq!(Token::from_str("^="), Token::XorEq);
}

#[test]
fn token_kinds() {
    assert_eq!(Token::Plus.ty(), TokenType::Plus);
    assert_eq!(Token::NSUBSTR.ty(), TokenType::NSUBSTR);
    assert_eq!(Token::Ident("x").ty(), TokenType::Ident);
    assert_eq!(Token::PureStr("x").ty(), TokenType::PureStr);
    assert_eq!(Token::ImpureStr("x").ty(), TokenType::ImpureStr);
    assert_eq!(Token::Num(3).ty(), TokenType::Num);
    assert_eq!(Token::Eof.ty(), TokenType::Eof);
    assert_eq!(Token::Comment.ty(), TokenType::Comment);
    assert_eq!(Token::Until.ty(), TokenType::Until);
    assert_eq!(Token::from_ident("foreach").ty(), TokenType::Foreach);
}
