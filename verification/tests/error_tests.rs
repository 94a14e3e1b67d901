use browser_cli::errors::SessionError;

#[test]
fn fixed_messages_render_exactly() {
    assert_eq!(
        SessionError::NotInitialized.message(),
        "Browser not initialized"
    );
    assert_eq!(
        SessionError::InvalidScrollDirection.message(),
        "Invalid scroll direction"
    );
    assert_eq!(
        SessionError::NoSearchInput.message(),
        "No search input found on page"
    );
    assert_eq!(
        SessionError::FormNotFound.message(),
        "Form not found or submission failed"
    );
    assert_eq!(
        SessionError::FormEvalFailed.message(),
        "Form submission failed"
    );
}

#[test]
fn timeout_messages_carry_target_and_seconds() {
    assert_eq!(
        SessionError::SelectorTimeout { selector: "#a".to_string(), seconds: 10 }.message(),
        "Timeout waiting for selector: '#a' after 10 seconds"
    );
    assert_eq!(
        SessionError::TextTimeout { text: "done".to_string(), seconds: 7 }.message(),
        "Timeout waiting for text: 'done' after 7 seconds"
    );
    assert_eq!(
        SessionError::NavigationTimeout { seconds: 30 }.message(),
        "Timeout waiting for navigation after 30 seconds"
    );
}

#[test]
fn lookup_messages_carry_the_selector() {
    assert_eq!(
        SessionError::ElementNotFound { selector: ".x".to_string() }.message(),
        "Element not found: .x"
    );
    assert_eq!(
        SessionError::FillFailed { selector: "#f".to_string() }.message(),
        "Failed to fill field: #f"
    );
    assert_eq!(
        SessionError::FieldNotFound { selector: "#f".to_string() }.message(),
        "Field not found: #f"
    );
}
