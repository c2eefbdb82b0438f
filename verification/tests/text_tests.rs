use wtui::text::{
    chars_of, contains, decimal_string, is_blank, is_whitespace, join2, join3, pad_end, pad_start,
    push_hex_fixed, str_eq, trim,
};

#[test]
fn substring_search() {
    assert!(contains("WPA2-PSK", "PSK"));
    assert!(contains("abc", ""));
    assert!(!contains("WPA", "WPA2"));
    assert!(!contains("Open", "open"));
    assert!(contains("x", "x"));
}

#[test]
fn equality_and_joining() {
    assert!(str_eq("Open", "Open"));
    assert!(!str_eq("Open", "Ope"));
    assert_eq!(join2("a", "b"), "ab");
    assert_eq!(join3("a", "b", "c"), "abc");
    assert_eq!(chars_of("héllo"), vec!['h', 'é', 'l', 'l', 'o']);
}

#[test]
fn whitespace_and_trimming() {
    for c in ['\t', '\n', ' ', '\u{85}', '\u{a0}', '\u{2003}', '\u{3000}'] {
        assert!(is_whitespace(c));
        assert_eq!(is_whitespace(c), c.is_whitespace());
    }
    assert!(!is_whitespace('a'));
    assert!(!is_whitespace('\u{200b}'));
    for s in ["  a b  ", "\n\tx", "", "   ", "y\u{3000}"] {
        assert_eq!(trim(s), s.trim());
        assert_eq!(is_blank(s), s.trim().is_empty());
    }
}

#[test]
fn numbers() {
    assert_eq!(decimal_string(0), "0");
    assert_eq!(decimal_string(1234567890), "1234567890");
    assert_eq!(decimal_string(u64::MAX), u64::MAX.to_string());
    let mut s = String::new();
    push_hex_fixed(&mut s, 0xbeef, 6);
    assert_eq!(s, "00beef");
    let mut t = String::new();
    push_hex_fixed(&mut t, 0x12345, 4);
    assert_eq!(t, "2345");
}

#[test]
fn padding() {
    assert_eq!(pad_end("ab", 4), "ab  ");
    assert_eq!(pad_start("ab", 4), "  ab");
    assert_eq!(pad_end("abcdef", 4), "abcdef");
    assert_eq!(pad_start("é", 3), "  é");
}
