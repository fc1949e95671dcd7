use mathkids::decimal::{append_decimal, char_is_whitespace, parse_answer, render_decimal};

#[test]
fn decimal_text_of_integers() {
    assert_eq!(render_decimal(0), "0");
    assert_eq!(render_decimal(7), "7");
    assert_eq!(render_decimal(10), "10");
    assert_eq!(render_decimal(-1), "-1");
    assert_eq!(render_decimal(1234567890), "1234567890");
    assert_eq!(render_decimal(i64::MAX), "9223372036854775807");
    assert_eq!(render_decimal(i64::MIN), "-9223372036854775808");
}

#[test]
fn append_decimal_keeps_what_was_there() {
    let mut s = String::from("x = ");
    append_decimal(&mut s, -305);
    assert_eq!(s, "x = -305");
    append_decimal(&mut s, 40);
    assert_eq!(s, "x = -30540");
}

#[test]
fn parse_accepts_sign_and_digits() {
    assert_eq!(parse_answer("42"), Some(42));
    assert_eq!(parse_answer("+42"), Some(42));
    assert_eq!(parse_answer("-42"), Some(-42));
    assert_eq!(parse_answer("0042"), Some(42));
    assert_eq!(parse_answer("-0"), Some(0));
    assert_eq!(parse_answer("9223372036854775807"), Some(i64::MAX));
    assert_eq!(parse_answer("-9223372036854775808"), Some(i64::MIN));
    assert_eq!(parse_answer("0000000000000000000000000000000000000012"), Some(12));
}

#[test]
fn parse_trims_surrounding_white_space() {
    assert_eq!(parse_answer(" 42 "), Some(42));
    assert_eq!(parse_answer("\t\n-7\r\n"), Some(-7));
    assert_eq!(parse_answer("\u{00A0}5\u{2003}"), Some(5));
    assert_eq!(parse_answer("\u{3000}\u{2028}+8\u{0085}\u{1680}"), Some(8));
}

#[test]
fn parse_refuses_what_is_no_integer() {
    assert_eq!(parse_answer(""), None);
    assert_eq!(parse_answer("   "), None);
    assert_eq!(parse_answer("-"), None);
    assert_eq!(parse_answer("+"), None);
    assert_eq!(parse_answer("+-1"), None);
    assert_eq!(parse_answer("--1"), None);
    assert_eq!(parse_answer("- 1"), None);
    assert_eq!(parse_answer("4 2"), None);
    assert_eq!(parse_answer("4.2"), None);
    assert_eq!(parse_answer("1_000"), None);
    assert_eq!(parse_answer("12a"), None);
    assert_eq!(parse_answer("a12"), None);
    assert_eq!(parse_answer("0x10"), None);
    assert_eq!(parse_answer("\u{FF11}"), None);
    assert_eq!(parse_answer("\u{0661}"), None);
    assert_eq!(parse_answer("1\u{200B}"), None);
}

#[test]
fn parse_refuses_what_does_not_fit() {
    assert_eq!(parse_answer("9223372036854775808"), None);
    assert_eq!(parse_answer("-9223372036854775809"), None);
    assert_eq!(parse_answer("99999999999999999999999999"), None);
    assert_eq!(parse_answer("-99999999999999999999999999"), None);
    assert_eq!(parse_answer("92233720368547758070"), None);
}

#[test]
fn parse_agrees_with_the_standard_library() {
    let samples = [
        "0", "7", "-7", "+7", " 7", "7 ", "", "-", "+", "007", "1e3", "١", "12345678901234567890",
        "-9223372036854775808", "9223372036854775807", "\u{2009}15\u{2009}", "1\u{00A0}2", "٣",
    ];
    for s in samples {
        assert_eq!(parse_answer(s), s.trim().parse::<i64>().ok(), "on {:?}", s);
    }
}

#[test]
fn parse_reads_back_what_render_writes() {
    let samples = [0, 1, -1, 9, 10, -10, 99, 100, 12345, -98765, i64::MAX, i64::MIN, i64::MAX - 1];
    for n in samples {
        assert_eq!(parse_answer(&render_decimal(n)), Some(n));
        assert_eq!(render_decimal(n), n.to_string());
    }
}

#[test]
fn white_space_is_the_unicode_property() {
    let mut code = 0u32;
    while code <= 0x3100 {
        if let Some(c) = char::from_u32(code) {
            assert_eq!(char_is_whitespace(c), c.is_whitespace(), "on U+{:04X}", code);
        }
        code += 1;
    }
    assert!(!char_is_whitespace('\u{200B}'));
    assert!(!char_is_whitespace('\u{FEFF}'));
    assert!(!char_is_whitespace('\u{10FFFF}'));
}
