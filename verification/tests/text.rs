use simple_http3::text::{
    chars_of, contains_text, decimal_text, push_decimal, push_signed_decimal,
};

#[test]
fn chars_of_a_text() {
    assert_eq!(chars_of(""), Vec::<char>::new());
    assert_eq!(chars_of("a\u{e9}\u{1f600}"), vec!['a', '\u{e9}', '\u{1f600}']);
}

#[test]
fn contains_finds_a_word_anywhere() {
    assert!(contains_text("Timeout", "Timeout"));
    assert!(contains_text("xTimeout", "Timeout"));
    assert!(contains_text("Timeoutx", "Timeout"));
    assert!(contains_text("aaTimeoutbb", "Timeout"));
    assert!(contains_text("TimTimeout", "Timeout"));
    assert!(contains_text("anything", ""));
    assert!(contains_text("", ""));
}

#[test]
fn contains_misses_what_is_not_there() {
    assert!(!contains_text("", "a"));
    assert!(!contains_text("Timeou", "Timeout"));
    assert!(!contains_text("Time out", "Timeout"));
    assert!(!contains_text("timeout", "Timeout"));
    assert!(!contains_text("ab", "abc"));
    assert!(!contains_text("aab", "aba"));
}

#[test]
fn contains_goes_by_characters() {
    assert!(contains_text("gr\u{fc}\u{df}e", "\u{fc}\u{df}"));
    assert!(!contains_text("gr\u{fc}\u{df}e", "u"));
}

#[test]
fn decimal_of_numbers() {
    assert_eq!(decimal_text(0), "0");
    assert_eq!(decimal_text(7), "7");
    assert_eq!(decimal_text(10), "10");
    assert_eq!(decimal_text(1234567890), "1234567890");
    assert_eq!(decimal_text(u64::MAX), "18446744073709551615");
}

#[test]
fn decimal_is_appended() {
    let mut text = "n=".to_string();
    push_decimal(&mut text, 42);
    assert_eq!(text, "n=42");
    push_signed_decimal(&mut text, -42);
    assert_eq!(text, "n=42-42");
    push_signed_decimal(&mut text, 0);
    assert_eq!(text, "n=42-420");
    let mut text = String::new();
    push_signed_decimal(&mut text, i64::MIN);
    assert_eq!(text, "-9223372036854775808");
    let mut text = String::new();
    push_signed_decimal(&mut text, i64::MAX);
    assert_eq!(text, "9223372036854775807");
}
