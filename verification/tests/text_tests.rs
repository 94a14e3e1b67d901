use browser_cli::text::chars_of;
use browser_cli::text::contains_substring;
use browser_cli::text::str_eq;
use browser_cli::text::string_from_chars;

#[test]
fn chars_round_trip() {
    for s in ["", "abc", "h\u{e9}llo \u{4e16}\u{754c}"] {
        let v = chars_of(s);
        assert_eq!(v, s.chars().collect::<Vec<char>>());
        assert_eq!(string_from_chars(&v), s);
    }
}

#[test]
fn string_equality_is_by_characters() {
    assert!(str_eq("abc", "abc"));
    assert!(!str_eq("abc", "abd"));
    assert!(!str_eq("abc", "ab"));
    assert!(str_eq("", ""));
}

#[test]
fn substring_containment_is_case_sensitive() {
    assert!(contains_substring("The page is ready now", "ready"));
    assert!(!contains_substring("The page is ready now", "Ready"));
    assert!(contains_substring("abc", ""));
    assert!(contains_substring("abc", "abc"));
    assert!(!contains_substring("ab", "abc"));
    assert!(contains_substring("aaab", "aab"));
}
