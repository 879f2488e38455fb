use coding_companion::text::{decimal_text, is_whitespace_char, same_text, trim};

#[test]
fn trim_removes_surrounding_whitespace() {
    assert_eq!(trim("  hello world \n\t"), "hello world");
}

#[test]
fn trim_keeps_inner_whitespace() {
    assert_eq!(trim("a  b"), "a  b");
}

#[test]
fn trim_of_blank_text_is_empty() {
    assert_eq!(trim(" \t\r\n "), "");
    assert_eq!(trim(""), "");
}

#[test]
fn trim_handles_unicode_whitespace() {
    assert_eq!(trim("\u{3000}\u{a0}hi\u{2028}\u{85}"), "hi");
}

#[test]
fn trim_agrees_with_std() {
    for s in ["", " x ", "\u{2009}é\u{2009}", "no-trim", "\u{200b}zero width\u{200b}", "  multi word text  "] {
        assert_eq!(trim(s), s.trim(), "text {:?}", s);
    }
}

#[test]
fn whitespace_agrees_with_std_on_all_chars() {
    for c in (0u32..0x11000).filter_map(char::from_u32) {
        assert_eq!(is_whitespace_char(c), c.is_whitespace(), "char {:?}", c);
    }
}

#[test]
fn decimal_text_writes_numbers() {
    assert_eq!(decimal_text(0), "0");
    assert_eq!(decimal_text(7), "7");
    assert_eq!(decimal_text(10), "10");
    assert_eq!(decimal_text(100), "100");
    assert_eq!(decimal_text(u64::MAX), u64::MAX.to_string());
}

#[test]
fn same_text_compares_contents() {
    assert!(same_text("ping", "ping"));
    assert!(!same_text("ping", "pong"));
    assert!(!same_text("ping", "ping "));
}
