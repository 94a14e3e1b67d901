use browser_cli::slug::route_slug;

#[test]
fn about_blank_is_blank() {
    assert_eq!(route_slug("about:blank"), "blank");
}

#[test]
fn empty_url_is_blank() {
    assert_eq!(route_slug(""), "blank");
}

#[test]
fn root_path_with_www() {
    assert_eq!(route_slug("https://www.example.com/"), "example_com_home");
}

#[test]
fn root_path_without_www() {
    assert_eq!(route_slug("https://example.com/"), "example_com_home");
}

#[test]
fn path_segments_become_underscores() {
    assert_eq!(route_slug("https://example.com/a/b"), "example_com__a_b");
}

#[test]
fn long_path_is_cut_at_thirty() {
    let slug = route_slug("https://example.com/abcdefghijklmnopqrstuvwxyz0123456789");
    assert_eq!(slug, "example_com__abcdefghijklmnopqrstuvwxyz012");
    // host + '_' + 30 kept path characters
    assert_eq!(slug.len(), "example_com".len() + 1 + 30);
}

#[test]
fn unparsable_url_falls_back_to_filtered_input() {
    assert_eq!(route_slug("just-some-words"), "just-some-words");
}

#[test]
fn unparsable_long_input_is_cut_at_twenty() {
    assert_eq!(
        route_slug("abcdefghijklmnopqrstuvwxyz"),
        "abcdefghijklmnopqrst"
    );
}

#[test]
fn nothing_kept_is_unknown() {
    assert_eq!(route_slug("!!!:???"), "unknown");
}

#[test]
fn unicode_letters_are_kept_in_fallback() {
    assert_eq!(route_slug("h\u{e9}llo w\u{f6}rld"), "h\u{e9}llow\u{f6}rld");
}

#[test]
fn slug_is_idempotent_on_clean_input() {
    for input in ["blank", "example_com_home", "a-b_c9", "Z"] {
        let once = route_slug(input);
        assert_eq!(route_slug(&once), once);
    }
}
