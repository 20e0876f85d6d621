use terrar::text::{decimal_string, is_whitespace, owned, push_decimal, same_text, trim_str};

#[test]
fn decimal_of_zero_and_large_numbers() {
    assert_eq!(decimal_string(0), "0");
    assert_eq!(decimal_string(7), "7");
    assert_eq!(decimal_string(230145000), "230145000");
    assert_eq!(decimal_string(u64::MAX), u64::MAX.to_string());
}

#[test]
fn push_decimal_appends() {
    let mut s = String::from("z=");
    push_decimal(&mut s, 15);
    assert_eq!(s, "z=15");
}

#[test]
fn trim_removes_unicode_whitespace_at_both_ends() {
    assert_eq!(trim_str("  DLH4AB \t"), "DLH4AB");
    assert_eq!(trim_str("\u{3000}a b\u{a0}"), "a b");
    assert_eq!(trim_str("    "), "");
    assert_eq!(trim_str(""), "");
    for s in ["x", " x", "x ", "\n\rx y\u{2009}", "\u{85}"] {
        assert_eq!(trim_str(s), s.trim());
    }
}

#[test]
fn whitespace_matches_std() {
    for c in ['\t', '\n', ' ', '\u{85}', '\u{a0}', '\u{1680}', '\u{2000}', '\u{200a}', '\u{2028}', '\u{3000}', 'a', '\u{200b}', '0'] {
        assert_eq!(is_whitespace(c), c.is_whitespace(), "{c:?}");
    }
}

#[test]
fn same_text_compares_characters() {
    assert!(same_text("tram", "tram"));
    assert!(!same_text("tram", "Tram"));
    assert!(!same_text("bus", "buss"));
    assert!(same_text("", ""));
}

#[test]
fn owned_copies() {
    assert_eq!(owned("ISS"), "ISS".to_string());
}
