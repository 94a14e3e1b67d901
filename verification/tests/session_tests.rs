use browser_cli::errors::SessionError;
use browser_cli::session::fill_outcome;
use browser_cli::session::first_hit;
use browser_cli::session::highlight_outcome;
use browser_cli::session::require_page;
use browser_cli::session::scroll_action;
use browser_cli::session::search_selectors;
use browser_cli::session::status_line;
use browser_cli::session::submit_outcome;
use browser_cli::session::ScrollAction;

#[test]
fn scroll_directions_resolve() {
    assert_eq!(scroll_action("down", Some(100)).unwrap(), ScrollAction::By(100));
    assert_eq!(scroll_action("up", Some(100)).unwrap(), ScrollAction::By(-100));
    assert_eq!(scroll_action("top", None).unwrap(), ScrollAction::ToTop);
    assert_eq!(scroll_action("bottom", None).unwrap(), ScrollAction::ToBottom);
}

#[test]
fn scroll_defaults_to_three_hundred() {
    assert_eq!(scroll_action("down", None).unwrap(), ScrollAction::By(300));
    assert_eq!(scroll_action("up", None).unwrap(), ScrollAction::By(-300));
}

#[test]
fn unsupported_direction_is_rejected_not_ignored() {
    for bad in ["left", "right", "Down", "UP", "", "diagonal"] {
        let r = scroll_action(bad, Some(10));
        assert!(matches!(r, Err(SessionError::InvalidScrollDirection)));
    }
}

#[test]
fn passive_commands_need_a_page() {
    assert!(require_page(true).is_ok());
    let r = require_page(false);
    assert!(matches!(r, Err(SessionError::NotInitialized)));
    assert_eq!(r.unwrap_err().message(), "Browser not initialized");
}

#[test]
fn status_reports_readiness() {
    assert_eq!(status_line(false, "whatever"), "Browser not ready");
    assert_eq!(status_line(true, "Example | example.com"), "Example | example.com");
}

#[test]
fn search_candidates_are_ordered() {
    let sels = search_selectors();
    assert_eq!(
        sels,
        vec![
            "input[type=\"search\"]",
            "input[placeholder*=\"search\" i]",
            "input[name*=\"search\" i]",
            "input[id*=\"search\" i]",
            ".search input",
            "#search input",
        ]
    );
}

#[test]
fn first_hit_takes_the_first_match() {
    assert_eq!(first_hit(&vec![false, true, true]), Some(1));
    assert_eq!(first_hit(&vec![true]), Some(0));
    assert_eq!(first_hit(&vec![false, false]), None);
    assert_eq!(first_hit(&vec![]), None);
}

#[test]
fn fill_verdicts_map_to_errors() {
    assert!(fill_outcome("#f", Some(true)).is_ok());
    let failed = fill_outcome("#f", Some(false)).unwrap_err();
    assert_eq!(failed.message(), "Failed to fill field: #f");
    let missing = fill_outcome("#f", None).unwrap_err();
    assert_eq!(missing.message(), "Field not found: #f");
}

#[test]
fn submit_verdicts_distinguish_their_failures() {
    assert!(submit_outcome(Some(true)).is_ok());
    assert_eq!(
        submit_outcome(Some(false)).unwrap_err().message(),
        "Form not found or submission failed"
    );
    assert_eq!(
        submit_outcome(None).unwrap_err().message(),
        "Form submission failed"
    );
}

#[test]
fn highlight_only_fails_on_an_explicit_miss() {
    assert!(highlight_outcome(".x", Some(true)).is_ok());
    assert!(highlight_outcome(".x", None).is_ok());
    assert_eq!(
        highlight_outcome(".x", Some(false)).unwrap_err().message(),
        "Element not found: .x"
    );
}
