use browser_cli::info::concise_page_info;
use browser_cli::info::page_text_summary;

#[test]
fn text_without_selector_is_two_lines() {
    assert_eq!(
        page_text_summary("Example Domain", "https://example.com/"),
        "Title: Example Domain\nURL: https://example.com/"
    );
}

#[test]
fn concise_info_strips_the_scheme() {
    assert_eq!(
        concise_page_info("Example", "https://example.com/", 0, 0, 0),
        "Example | example.com/"
    );
    assert_eq!(
        concise_page_info("Example", "http://example.com/", 0, 0, 0),
        "Example | example.com/"
    );
    assert_eq!(
        concise_page_info("Example", "ftp://example.com/", 0, 0, 0),
        "Example | ftp://example.com/"
    );
}

#[test]
fn concise_info_reports_counts_only_when_present() {
    assert_eq!(
        concise_page_info("T", "https://e.com", 2, 3, 44),
        "T | e.com | i:2 b:3 l:44"
    );
    assert_eq!(
        concise_page_info("T", "https://e.com", 0, 0, 1),
        "T | e.com | i:0 b:0 l:1"
    );
    assert_eq!(concise_page_info("T", "https://e.com", 0, 0, 0), "T | e.com");
}

#[test]
fn concise_info_cuts_the_title_at_forty() {
    let long = "abcdefghij".repeat(5);
    let info = concise_page_info(&long, "https://e.com", 0, 0, 0);
    assert_eq!(info, format!("{} | e.com", &long[..40]));
}
