use anki_tui::text::{decimal_text, padded, text_le_exec};

#[test]
fn decimal_of_numbers() {
    assert_eq!(decimal_text(0), "0");
    assert_eq!(decimal_text(7), "7");
    assert_eq!(decimal_text(10), "10");
    assert_eq!(decimal_text(1234), "1234");
    assert_eq!(decimal_text(u64::MAX as u128), u64::MAX.to_string());
}

#[test]
fn padding_fills_to_the_width() {
    assert_eq!(padded("ab", 5), "ab   ");
    assert_eq!(padded("abcdef", 3), "abcdef");
    assert_eq!(padded("", 2), "  ");
    assert_eq!(padded("é", 3), "é  ");
}

#[test]
fn text_order_is_lexicographic() {
    assert!(text_le_exec("a", "b"));
    assert!(!text_le_exec("b", "a"));
    assert!(text_le_exec("", "a"));
    assert!(text_le_exec("ab", "ab"));
    assert!(!text_le_exec("ab", "a"));
    assert!(text_le_exec("Z", "a"));
    assert!(text_le_exec("z", "é"));
}
