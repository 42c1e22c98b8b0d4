use elevenlabs_stt::text::{decimal_text, flag_text};
use elevenlabs_stt::Decimal;

fn accepted(text: &str) -> bool {
    match Decimal::parse(text) {
        Some(d) => {
            assert_eq!(d.as_str(), text);
            assert_eq!(d.clone().into_string(), text);
            true
        }
        None => false,
    }
}

#[test]
fn whole_numbers_are_numerals() {
    assert!(accepted("0"));
    assert!(accepted("1"));
    assert!(accepted("32"));
    assert!(accepted("007"));
    assert!(accepted("340282350000000000000000000000000000000"));
}

#[test]
fn fractions_are_numerals() {
    assert!(accepted("0.22"));
    assert!(accepted("1.5"));
    assert!(accepted("2.0"));
    assert!(accepted("0.0000001"));
    assert!(accepted("12.5"));
}

#[test]
fn a_minus_sign_may_lead() {
    assert!(accepted("-0"));
    assert!(accepted("-1"));
    assert!(accepted("-0.5"));
    assert!(accepted("-12.25"));
}

#[test]
fn the_three_names_are_accepted() {
    assert!(accepted("NaN"));
    assert!(accepted("inf"));
    assert!(accepted("-inf"));
}

#[test]
fn other_names_are_refused() {
    assert!(!accepted("nan"));
    assert!(!accepted("-NaN"));
    assert!(!accepted("Inf"));
    assert!(!accepted("+inf"));
    assert!(!accepted("infinity"));
    assert!(!accepted("in"));
    assert!(!accepted("NaNN"));
}

#[test]
fn a_point_needs_digits_on_both_sides() {
    assert!(!accepted("."));
    assert!(!accepted("1."));
    assert!(!accepted(".5"));
    assert!(!accepted("-.5"));
    assert!(!accepted("-1."));
    assert!(!accepted("1..2"));
    assert!(!accepted("1.2.3"));
    assert!(!accepted("1.2."));
}

#[test]
fn what_is_no_numeral_is_refused() {
    assert!(!accepted(""));
    assert!(!accepted("-"));
    assert!(!accepted("--1"));
    assert!(!accepted("+1"));
    assert!(!accepted("1-"));
    assert!(!accepted("1e5"));
    assert!(!accepted("1E5"));
    assert!(!accepted("0x10"));
    assert!(!accepted(" 1"));
    assert!(!accepted("1 "));
    assert!(!accepted("1,5"));
    assert!(!accepted("abc"));
    assert!(!accepted("1a"));
    assert!(!accepted("/"));
    assert!(!accepted(":"));
}

#[test]
fn digits_of_other_scripts_are_refused() {
    assert!(!accepted("١٢"));
    assert!(!accepted("1٫5"));
    assert!(!accepted("１"));
    assert!(!accepted("0.2é"));
}

#[test]
fn decimal_text_of_small_numbers() {
    assert_eq!(decimal_text(0), "0");
    assert_eq!(decimal_text(7), "7");
    assert_eq!(decimal_text(9), "9");
    assert_eq!(decimal_text(10), "10");
    assert_eq!(decimal_text(11), "11");
    assert_eq!(decimal_text(99), "99");
    assert_eq!(decimal_text(100), "100");
    assert_eq!(decimal_text(429), "429");
    assert_eq!(decimal_text(1234567890), "1234567890");
}

#[test]
fn decimal_text_of_the_largest_number() {
    assert_eq!(decimal_text(u64::MAX), "18446744073709551615");
    assert_eq!(decimal_text(u64::MAX), u64::MAX.to_string());
}

#[test]
fn decimal_text_agrees_with_the_standard_library() {
    let mut n: u64 = 1;
    for _ in 0..19 {
        assert_eq!(decimal_text(n), n.to_string());
        assert_eq!(decimal_text(n - 1), (n - 1).to_string());
        assert_eq!(decimal_text(n + 1), (n + 1).to_string());
        n *= 10;
    }
}

#[test]
fn flags_are_written_as_words() {
    assert_eq!(flag_text(true), "true");
    assert_eq!(flag_text(false), "false");
}
