use expense_tracker::decimal::decimal_string;
use expense_tracker::text::is_free_of_escape;

#[test]
fn decimal_of_small_numbers() {
    assert_eq!(decimal_string(0), "0");
    assert_eq!(decimal_string(7), "7");
    assert_eq!(decimal_string(9), "9");
    assert_eq!(decimal_string(10), "10");
    assert_eq!(decimal_string(11), "11");
    assert_eq!(decimal_string(99), "99");
    assert_eq!(decimal_string(100), "100");
    assert_eq!(decimal_string(1234567890), "1234567890");
}

#[test]
fn decimal_of_the_largest_number() {
    assert_eq!(decimal_string(u32::MAX), "4294967295");
}

#[test]
fn decimal_agrees_with_the_standard_notation() {
    let mut n: u32 = 1;
    for _ in 0..2000 {
        assert_eq!(decimal_string(n), n.to_string());
        n = n.wrapping_mul(1664525).wrapping_add(1013904223);
    }
}

#[test]
fn escape_characters_are_found_wherever_they_stand() {
    assert!(is_free_of_escape(""));
    assert!(is_free_of_escape("Coffee"));
    assert!(is_free_of_escape("caf\u{e9} \u{1f600} [31m"));
    assert!(!is_free_of_escape("\u{1b}"));
    assert!(!is_free_of_escape("\u{1b}[31mred"));
    assert!(!is_free_of_escape("red\u{1b}[0m"));
    assert!(!is_free_of_escape("a\u{1b}b"));
}
