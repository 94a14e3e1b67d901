use browser_cli::dispatch::parse_line;
use browser_cli::dispatch::tokenize;
use browser_cli::dispatch::Directive;

#[test]
fn tokenizes_on_whitespace() {
    assert_eq!(tokenize("  navigate   https://x  "), vec!["navigate", "https://x"]);
    assert_eq!(tokenize(""), Vec::<String>::new());
    assert_eq!(tokenize(" \t \n"), Vec::<String>::new());
    assert_eq!(tokenize("a\tb\nc"), vec!["a", "b", "c"]);
}

#[test]
fn empty_line_is_empty_directive() {
    assert!(matches!(parse_line("   "), Directive::Empty));
}

#[test]
fn exit_and_quit_leave_the_loop() {
    assert!(matches!(parse_line("exit"), Directive::Exit));
    assert!(matches!(parse_line("quit"), Directive::Exit));
}

#[test]
fn navigate_joins_and_aliases() {
    match parse_line("go https://example.com") {
        Directive::Navigate { url } => assert_eq!(url, "https://example.com"),
        other => panic!("routed to {:?}", other),
    }
    match parse_line("navigate one two") {
        Directive::Navigate { url } => assert_eq!(url, "one two"),
        other => panic!("routed to {:?}", other),
    }
}

#[test]
fn missing_arguments_become_usage_hints() {
    match parse_line("navigate") {
        Directive::Usage { hint } => assert_eq!(hint, "Usage: navigate <url>"),
        other => panic!("routed to {:?}", other),
    }
    match parse_line("clickat 10") {
        Directive::Usage { hint } => assert_eq!(hint, "Usage: clickat <x> <y>"),
        other => panic!("routed to {:?}", other),
    }
    match parse_line("fill #name") {
        Directive::Usage { hint } => assert_eq!(hint, "Usage: fill <selector> <value>"),
        other => panic!("routed to {:?}", other),
    }
}

#[test]
fn unknown_verb_is_reported_not_fatal() {
    match parse_line("frobnicate everything") {
        Directive::Unknown { verb } => assert_eq!(verb, "frobnicate"),
        other => panic!("routed to {:?}", other),
    }
}

#[test]
fn scroll_parses_optional_amount() {
    match parse_line("scroll down 100") {
        Directive::Scroll { direction, amount } => {
            assert_eq!(direction, "down");
            assert_eq!(amount, Some(100));
        }
        other => panic!("routed to {:?}", other),
    }
    match parse_line("scroll up") {
        Directive::Scroll { direction, amount } => {
            assert_eq!(direction, "up");
            assert_eq!(amount, None);
        }
        other => panic!("routed to {:?}", other),
    }
    // An unparsable amount falls back to the default, as if absent.
    match parse_line("scroll down lots") {
        Directive::Scroll { amount, .. } => assert_eq!(amount, None),
        other => panic!("routed to {:?}", other),
    }
}

#[test]
fn screenshot_alias_and_optional_filename() {
    match parse_line("ss shot.png") {
        Directive::Screenshot { filename } => assert_eq!(filename.as_deref(), Some("shot.png")),
        other => panic!("routed to {:?}", other),
    }
    match parse_line("screenshot") {
        Directive::Screenshot { filename } => assert_eq!(filename, None),
        other => panic!("routed to {:?}", other),
    }
}

#[test]
fn type_keeps_selector_and_joins_text() {
    match parse_line("type #q hello world") {
        Directive::TypeText { selector, text } => {
            assert_eq!(selector, "#q");
            assert_eq!(text, "hello world");
        }
        other => panic!("routed to {:?}", other),
    }
}

#[test]
fn waitfortext_reads_a_trailing_timeout() {
    match parse_line("waitfortext hello world 5") {
        Directive::WaitForText { text, timeout_secs } => {
            assert_eq!(text, "hello world");
            assert_eq!(timeout_secs, Some(5));
        }
        other => panic!("routed to {:?}", other),
    }
    match parse_line("waitfortext hello world") {
        Directive::WaitForText { text, timeout_secs } => {
            assert_eq!(text, "hello world");
            assert_eq!(timeout_secs, None);
        }
        other => panic!("routed to {:?}", other),
    }
    // The known ambiguity: text that itself ends in digits reads as a
    // timeout when more than one token is present.
    match parse_line("waitfortext error 404") {
        Directive::WaitForText { text, timeout_secs } => {
            assert_eq!(text, "error");
            assert_eq!(timeout_secs, Some(404));
        }
        other => panic!("routed to {:?}", other),
    }
    // A single token is always text, digits or not.
    match parse_line("waitfortext 404") {
        Directive::WaitForText { text, timeout_secs } => {
            assert_eq!(text, "404");
            assert_eq!(timeout_secs, None);
        }
        other => panic!("routed to {:?}", other),
    }
}

#[test]
fn ticker_defaults_and_rejects_zero_interval() {
    match parse_line("ticker") {
        Directive::Ticker { selector, interval_secs, max_iterations } => {
            assert_eq!(selector, None);
            assert_eq!(interval_secs, 2);
            assert_eq!(max_iterations, None);
        }
        other => panic!("routed to {:?}", other),
    }
    match parse_line("ticker .item 5 3") {
        Directive::Ticker { selector, interval_secs, max_iterations } => {
            assert_eq!(selector.as_deref(), Some(".item"));
            assert_eq!(interval_secs, 5);
            assert_eq!(max_iterations, Some(3));
        }
        other => panic!("routed to {:?}", other),
    }
    match parse_line("ticker .item 0") {
        Directive::Usage { hint } => {
            assert_eq!(hint, "Interval must be greater than 0 seconds")
        }
        other => panic!("routed to {:?}", other),
    }
}

#[test]
fn waitenhanced_defaults_its_timeout() {
    match parse_line("waitenhanced .done") {
        Directive::WaitEnhanced { selector, timeout_secs } => {
            assert_eq!(selector, ".done");
            assert_eq!(timeout_secs, 10);
        }
        other => panic!("routed to {:?}", other),
    }
    match parse_line("waitenhanced .done 25") {
        Directive::WaitEnhanced { timeout_secs, .. } => assert_eq!(timeout_secs, 25),
        other => panic!("routed to {:?}", other),
    }
}

#[test]
fn plain_verbs_route_to_their_operations() {
    assert!(matches!(parse_line("help"), Directive::Help));
    assert!(matches!(parse_line("h"), Directive::Help));
    assert!(matches!(parse_line("url"), Directive::Url));
    assert!(matches!(parse_line("title"), Directive::Title));
    assert!(matches!(parse_line("reload"), Directive::Reload));
    assert!(matches!(parse_line("refresh"), Directive::Reload));
    assert!(matches!(parse_line("back"), Directive::Back));
    assert!(matches!(parse_line("forward"), Directive::Forward));
    assert!(matches!(parse_line("clear"), Directive::Clear));
    assert!(matches!(parse_line("cls"), Directive::Clear));
    assert!(matches!(parse_line("status"), Directive::Status));
    assert!(matches!(parse_line("info"), Directive::Info));
    assert!(matches!(parse_line("elements"), Directive::Elements));
}

#[test]
fn verbs_are_case_sensitive() {
    assert!(matches!(parse_line("Help"), Directive::Unknown { .. }));
    assert!(matches!(parse_line("EXIT"), Directive::Unknown { .. }));
}
