use nasl_transpiler::ast::{Expression, Statement};
use nasl_transpiler::chars::{
    digit_value, is_alpha, is_blank, is_digit, is_escape, is_hex_digit, is_word_part,
    is_word_start, CharClass,
};
use nasl_transpiler::number::parse_radix;
use nasl_transpiler::text::{drop_first_char, first_two, prefix_before, str_eq, utf8_width};

#[test]
fn character_classes() {
    for c in ['\t', '\r', '\u{c}', ' ', '\n'] {
        assert!(is_blank(c));
    }
    for c in ['\u{b}', 'a', '#', '\u{a0}'] {
        assert!(!is_blank(c));
    }
    assert!(is_alpha('a') && is_alpha('z') && is_alpha('A') && is_alpha('Z'));
    assert!(!is_alpha('`') && !is_alpha('{') && !is_alpha('@') && !is_alpha('['));
    assert!(!is_alpha('\u{e9}') && !is_alpha('_') && !is_alpha('5'));
    assert!(is_digit('0') && is_digit('9'));
    assert!(!is_digit('/') && !is_digit(':') && !is_digit('\u{b2}') && !is_digit('\u{661}'));
    assert!(is_hex_digit('0') && is_hex_digit('9') && is_hex_digit('a') && is_hex_digit('f'));
    assert!(is_hex_digit('A') && is_hex_digit('F'));
    assert!(!is_hex_digit('g') && !is_hex_digit('G') && !is_hex_digit('x'));
    assert!(is_word_start('_') && is_word_start('q') && !is_word_start('1'));
    assert!(is_word_part('_') && is_word_part('q') && is_word_part('1') && !is_word_part('-'));
    for c in ['n', 't', 'v', 'r', '\'', '"', 'b', '\\'] {
        assert!(is_escape(c));
    }
    for c in ['F', '0', 'a', 'x', 'N', '\n'] {
        assert!(!is_escape(c));
    }
}

#[test]
fn classes_of_runs() {
    assert!(CharClass::Word.contains('a') && !CharClass::Word.contains(' '));
    assert!(CharClass::Digit.contains('7') && !CharClass::Digit.contains('a'));
    assert!(CharClass::HexDigit.contains('c') && !CharClass::HexDigit.contains('h'));
    assert!(CharClass::Comment.contains('#') && !CharClass::Comment.contains('\n'));
    assert!(CharClass::Quoted.contains('\'') && !CharClass::Quoted.contains('"'));
}

#[test]
fn digit_values() {
    assert_eq!(digit_value('0'), 0);
    assert_eq!(digit_value('9'), 9);
    assert_eq!(digit_value('a'), 10);
    assert_eq!(digit_value('f'), 15);
    assert_eq!(digit_value('A'), 10);
    assert_eq!(digit_value('F'), 15);
}

#[test]
fn parse_radix_values() {
    assert_eq!(parse_radix("FF", 16), Some(255));
    assert_eq!(parse_radix("ff", 16), Some(255));
    assert_eq!(parse_radix("016", 8), Some(14));
    assert_eq!(parse_radix("32", 10), Some(32));
    assert_eq!(parse_radix("0", 10), Some(0));
    assert_eq!(parse_radix("0000000000000000000000000000007", 8), Some(7));
    assert_eq!(parse_radix("101", 2), Some(5));
    assert_eq!(parse_radix("7fffffff", 16), Some(i32::MAX));
    assert_eq!(parse_radix("2147483647", 10), Some(i32::MAX));
}

#[test]
fn parse_radix_failures() {
    assert_eq!(parse_radix("", 10), None);
    assert_eq!(parse_radix("018", 8), None);
    assert_eq!(parse_radix("12a", 10), None);
    assert_eq!(parse_radix("g", 16), None);
    assert_eq!(parse_radix("-1", 10), None);
    assert_eq!(parse_radix("+1", 10), None);
    assert_eq!(parse_radix(" 1", 10), None);
    assert_eq!(parse_radix("2", 2), None);
    assert_eq!(parse_radix("80000000", 16), None);
    assert_eq!(parse_radix("2147483648", 10), None);
    assert_eq!(parse_radix("20000000000", 8), None);
    assert_eq!(parse_radix("99999999999999999999999999999999999999", 10), None);
    assert_eq!(parse_radix("\u{661}", 10), None);
}

#[test]
fn parse_radix_agrees_with_std() {
    let samples = ["0", "7", "10", "777", "1234567", "7fffffff", "80000000", "19", "abc", "0019"];
    for text in samples {
        for radix in [2u32, 8, 10, 16] {
            assert_eq!(parse_radix(text, radix), i32::from_str_radix(text, radix).ok());
        }
    }
}

#[test]
fn string_equality() {
    assert!(str_eq("", ""));
    assert!(str_eq("if", "if"));
    assert!(str_eq("h\u{e9}", "h\u{e9}"));
    assert!(!str_eq("if", "iff"));
    assert!(!str_eq("iff", "if"));
    assert!(!str_eq("if", "of"));
    assert!(!str_eq("", "a"));
    assert!(!str_eq("e", "\u{e9}"));
}

#[test]
fn widths_of_characters() {
    assert_eq!(utf8_width('a'), 1);
    assert_eq!(utf8_width('\u{7f}'), 1);
    assert_eq!(utf8_width('\u{80}'), 2);
    assert_eq!(utf8_width('\u{7ff}'), 2);
    assert_eq!(utf8_width('\u{800}'), 3);
    assert_eq!(utf8_width('\u{ffff}'), 3);
    assert_eq!(utf8_width('\u{10000}'), 4);
    assert_eq!(utf8_width('\u{10ffff}'), 4);
    for c in ['a', '\u{e9}', '\u{4e16}', '\u{1f600}'] {
        assert_eq!(utf8_width(c), c.len_utf8());
    }
}

#[test]
fn slicing_by_characters() {
    assert_eq!(first_two(""), (None, None));
    assert_eq!(first_two("a"), (Some('a'), None));
    assert_eq!(first_two("\u{e9}\u{4e16}z"), (Some('\u{e9}'), Some('\u{4e16}')));

    assert_eq!(drop_first_char("abc", 'a'), "bc");
    assert_eq!(drop_first_char("\u{e9}bc", '\u{e9}'), "bc");
    assert_eq!(drop_first_char("\u{1f600}", '\u{1f600}'), "");

    let whole = "h\u{e9}llo w\u{f6}rld";
    let rest = &whole[7..];
    assert_eq!(rest, "w\u{f6}rld");
    assert_eq!(prefix_before(whole, rest), "h\u{e9}llo ");
    assert_eq!(prefix_before(whole, whole), "");
    assert_eq!(prefix_before(whole, ""), whole);
}

#[test]
fn syntax_trees_compare_by_value() {
    let sum = || Expression::Infix {
        l_expr: Box::new(Expression::Identifier("a")),
        op: "+",
        r_expr: Box::new(Expression::Number(23)),
    };
    let branch = |cond| Statement::If {
        cond: Box::new(cond),
        if_block: Box::new(Statement::Block { statements: Vec::new() }),
        else_block: Some(Box::new(Statement::Block { statements: Vec::new() })),
    };
    assert_eq!(branch(sum()), branch(sum()));
    assert_ne!(branch(sum()), branch(Expression::Identifier("a")));
}
