use scraped::text::{
    char_is_whitespace, chars_of, contains, joined, same_text, starts_with, suffix_after_last,
    trimmed,
};

#[test]
fn chars_are_read_in_order() {
    assert_eq!(chars_of("héllo"), vec!['h', 'é', 'l', 'l', 'o']);
    assert_eq!(chars_of(""), Vec::<char>::new());
}

#[test]
fn whitespace_is_what_unicode_says() {
    for c in [' ', '\t', '\n', '\r', '\u{b}', '\u{c}', '\u{85}', '\u{a0}', '\u{1680}', '\u{2000}',
        '\u{200a}', '\u{2028}', '\u{2029}', '\u{202f}', '\u{205f}', '\u{3000}'] {
        assert!(char_is_whitespace(c), "{:?}", c);
        assert!(c.is_whitespace());
    }
    for c in ['a', '0', '_', '\u{200b}', '\u{feff}', '\u{8}', '\u{e}', '\u{2010}'] {
        assert!(!char_is_whitespace(c), "{:?}", c);
        assert!(!c.is_whitespace());
    }
}

#[test]
fn trimming_agrees_with_std() {
    for s in ["", " ", "a", "  a b  ", "\n\tx\u{a0}", "x \u{3000}", "\u{2003}é\u{2003}é\u{2003}"] {
        assert_eq!(trimmed(s), s.trim());
    }
}

#[test]
fn prefixes() {
    assert!(starts_with("http://a", "http"));
    assert!(starts_with("http", "http"));
    assert!(starts_with("anything", ""));
    assert!(!starts_with("htt", "http"));
    assert!(!starts_with("xhttp", "http"));
}

#[test]
fn substrings() {
    assert!(contains("a Javascript(1) b", "Javascript("));
    assert!(contains("Javascript(", "Javascript("));
    assert!(contains("abc", ""));
    assert!(contains("", ""));
    assert!(!contains("javascript(", "Javascript("));
    assert!(!contains("Javascript", "Javascript("));
    assert!(!contains("", "a"));
    assert!(contains("aab", "ab"));
}

#[test]
fn equality() {
    assert!(same_text("a", "a"));
    assert!(same_text("", ""));
    assert!(!same_text("a", "ab"));
    assert!(!same_text("ab", "a"));
    assert!(!same_text("ab", "ac"));
}

#[test]
fn suffix_after_the_last_separator() {
    assert_eq!(suffix_after_last("a.b.c", '.'), "c");
    assert_eq!(suffix_after_last("abc", '.'), "abc");
    assert_eq!(suffix_after_last("abc.", '.'), "");
    assert_eq!(suffix_after_last("", '.'), "");
    assert_eq!(suffix_after_last("https://x.com/y", '.'), "com/y");
    assert_eq!(suffix_after_last("é.ü", '.'), "ü");
}

#[test]
fn joining() {
    assert_eq!(joined("a", "/", "b"), "a/b");
    assert_eq!(joined("", "", ""), "");
}
