use sparko_esp_std::text::{
    char_ascii_lower, char_is_whitespace, find_chars, rfind_char, str_eq_ignore_ascii_case,
    str_equal, trim_str,
};

#[test]
fn trim_matches_std() {
    for s in ["", "   ", " a ", "\t\nabc d\r\n", "\u{a0}x\u{3000}", "no-space", " \u{2028} y"] {
        assert_eq!(trim_str(s), s.trim(), "{:?}", s);
    }
}

#[test]
fn whitespace_matches_std() {
    for c in [' ', '\t', '\n', '\u{b}', '\u{c}', '\r', '\u{85}', '\u{a0}', '\u{1680}', '\u{2000}', '\u{200a}',
        '\u{2028}', '\u{2029}', '\u{202f}', '\u{205f}', '\u{3000}', 'a', '\u{200b}', '\u{feff}', '0'] {
        assert_eq!(char_is_whitespace(c), c.is_whitespace(), "{:?}", c);
    }
}

#[test]
fn find_in_text() {
    let pat: Vec<char> = "<body>".chars().collect();
    assert_eq!(find_chars("<html><body>x</body>", &pat), Some(6));
    assert_eq!(find_chars("no tag", &pat), None);
    assert_eq!(find_chars("abc", &[]), Some(0));
    let pat: Vec<char> = "é".chars().collect();
    assert_eq!(find_chars("aéb", &pat), Some(1));
}

#[test]
fn rfind_in_text() {
    assert_eq!(rfind_char("a b c", ' '), Some(3));
    assert_eq!(rfind_char("abc", ' '), None);
    assert_eq!(rfind_char("", ' '), None);
}

#[test]
fn ascii_case() {
    assert_eq!(char_ascii_lower('A'), 'a' as u32);
    assert_eq!(char_ascii_lower('z'), 'z' as u32);
    assert_eq!(char_ascii_lower('É'), 'É' as u32);
    assert!(str_eq_ignore_ascii_case("Sparko.LOCAL", "sparko.local"));
    assert!(!str_eq_ignore_ascii_case("sparko", "sparko.local"));
    assert!(!str_eq_ignore_ascii_case("É", "é"));
    assert!(str_equal("abc", "abc"));
    assert!(!str_equal("abc", "abd"));
}
