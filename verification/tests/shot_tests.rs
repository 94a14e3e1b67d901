use browser_cli::shot::screenshot_path;
use browser_cli::slug::route_slug;

#[test]
fn explicit_name_with_directory_is_verbatim() {
    assert_eq!(
        screenshot_path(Some("/tmp/out.png"), "ignored", "ignored"),
        "/tmp/out.png"
    );
    assert_eq!(
        screenshot_path(Some("shots/a.png"), "ignored", "ignored"),
        "shots/a.png"
    );
}

#[test]
fn bare_explicit_name_lands_under_the_screenshot_directory() {
    assert_eq!(
        screenshot_path(Some("page.png"), "ignored", "ignored"),
        "browser-ss/page.png"
    );
}

#[test]
fn explicit_name_ignores_the_clock() {
    // A colliding explicit name resolves identically both times: the
    // overwrite is the caller's documented choice.
    let first = screenshot_path(Some("same.png"), "r", "20240101_000000");
    let second = screenshot_path(Some("same.png"), "r", "20240101_000001");
    assert_eq!(first, second);
}

#[test]
fn generated_name_holds_route_and_stamp() {
    assert_eq!(
        screenshot_path(None, "example_com_home", "20240102_030405"),
        "browser-ss/example_com_home_20240102_030405.png"
    );
}

#[test]
fn generated_names_differ_once_the_stamp_moves() {
    let p1 = screenshot_path(None, "example_com_home", "20240102_030405");
    let p2 = screenshot_path(None, "example_com_home", "20240102_030406");
    assert_ne!(p1, p2);
}

#[test]
fn generated_name_composes_with_the_slug() {
    let route = route_slug("https://www.example.com/");
    let path = screenshot_path(None, &route, "20240102_030405");
    assert_eq!(path, "browser-ss/example_com_home_20240102_030405.png");
}

