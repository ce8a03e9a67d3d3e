use slashbot::text::{decimal_string, eq_ignoring_ascii_case, to_ascii_lower};

#[test]
fn decimal_of_small_and_large_numbers() {
    assert_eq!(decimal_string(0), "0");
    assert_eq!(decimal_string(7), "7");
    assert_eq!(decimal_string(9), "9");
    assert_eq!(decimal_string(10), "10");
    assert_eq!(decimal_string(123), "123");
    assert_eq!(decimal_string(1_000_000), "1000000");
    assert_eq!(decimal_string(9_007_199_254_740_993), "9007199254740993");
    assert_eq!(decimal_string(u64::MAX), "18446744073709551615");
}

#[test]
fn decimal_agrees_with_the_standard_library() {
    let mut n: u64 = 1;
    for _ in 0..64 {
        assert_eq!(decimal_string(n), n.to_string());
        assert_eq!(decimal_string(n - 1), (n - 1).to_string());
        n = n.wrapping_mul(2);
    }
    let mut p: u64 = 1;
    for _ in 0..19 {
        assert_eq!(decimal_string(p), p.to_string());
        assert_eq!(decimal_string(p - 1), (p - 1).to_string());
        p *= 10;
    }
}

#[test]
fn lower_case_of_ascii_capitals_only() {
    assert_eq!(to_ascii_lower('A'), 'a');
    assert_eq!(to_ascii_lower('Z'), 'z');
    assert_eq!(to_ascii_lower('M'), 'm');
    assert_eq!(to_ascii_lower('a'), 'a');
    assert_eq!(to_ascii_lower('@'), '@');
    assert_eq!(to_ascii_lower('['), '[');
    assert_eq!(to_ascii_lower('0'), '0');
    assert_eq!(to_ascii_lower('\u{c9}'), '\u{c9}');
    assert_eq!(to_ascii_lower('\u{212a}'), '\u{212a}');
    for c in '\0'..='\u{ff}' {
        assert_eq!(to_ascii_lower(c), c.to_ascii_lowercase());
    }
}

#[test]
fn comparison_ignores_ascii_case_only() {
    assert!(eq_ignoring_ascii_case("", ""));
    assert!(eq_ignoring_ascii_case("ping", "ping"));
    assert!(eq_ignoring_ascii_case("PiNg", "pInG"));
    assert!(eq_ignoring_ascii_case("a_b-1", "A_B-1"));
    assert!(eq_ignoring_ascii_case("\u{e9}t\u{e9}", "\u{e9}T\u{e9}"));
    assert!(!eq_ignoring_ascii_case("ping", "pong"));
    assert!(!eq_ignoring_ascii_case("ping", "pin"));
    assert!(!eq_ignoring_ascii_case("pin", "ping"));
    assert!(!eq_ignoring_ascii_case("", "a"));
    assert!(!eq_ignoring_ascii_case("\u{c9}", "\u{e9}"));
    assert!(!eq_ignoring_ascii_case("k", "\u{212a}"));
    assert!(!eq_ignoring_ascii_case("@", "`"));
    assert!(!eq_ignoring_ascii_case("[", "{"));
}
