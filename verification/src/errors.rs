//! The errors the session operations report, with the exact one-line text
//! each renders to at the command boundary.

use vstd::prelude::*;

use crate::numbers::dec_of;
use crate::numbers::u64_to_dec;

verus! {

/// Everything a session operation can report short of the driver itself
/// failing: a session used before it exists, a rejected argument, a lookup
/// that found nothing, and a poll that ran out of time.
#[derive(Clone, Debug)]
pub enum SessionError {
    NotInitialized,
    InvalidScrollDirection,
    NoSearchInput,
    ElementNotFound { selector: String },
    SelectorTimeout { selector: String, seconds: u64 },
    TextTimeout { text: String, seconds: u64 },
    NavigationTimeout { seconds: u64 },
    FillFailed { selector: String },
    FieldNotFound { selector: String },
    FormNotFound,
    FormEvalFailed,
}

/// The human-readable line each error renders to.
pub open spec fn error_message_spec(e: SessionError) -> Seq<char> {
    match e {
        SessionError::NotInitialized => "Browser not initialized"@,
        SessionError::InvalidScrollDirection => "Invalid scroll direction"@,
        SessionError::NoSearchInput => "No search input found on page"@,
        SessionError::ElementNotFound { selector } => "Element not found: "@ + selector@,
        SessionError::SelectorTimeout { selector, seconds } => "Timeout waiting for selector: '"@
            + selector@ + "' after "@ + dec_of(seconds as nat) + " seconds"@,
        SessionError::TextTimeout { text, seconds } => "Timeout waiting for text: '"@ + text@
            + "' after "@ + dec_of(seconds as nat) + " seconds"@,
        SessionError::NavigationTimeout { seconds } => "Timeout waiting for navigation after "@
            + dec_of(seconds as nat) + " seconds"@,
        SessionError::FillFailed { selector } => "Failed to fill field: "@ + selector@,
        SessionError::FieldNotFound { selector } => "Field not found: "@ + selector@,
        SessionError::FormNotFound => "Form not found or submission failed"@,
        SessionError::FormEvalFailed => "Form submission failed"@,
    }
}

impl SessionError {
    /// Renders the error as its one-line message.
    pub fn message(&self) -> (r: String)
        ensures
            r@ == error_message_spec(*self),
    {
        match self {
            SessionError::NotInitialized => String::from_str("Browser not initialized"),
            SessionError::InvalidScrollDirection => String::from_str("Invalid scroll direction"),
            SessionError::NoSearchInput => String::from_str("No search input found on page"),
            SessionError::ElementNotFound { selector } => {
                let r = String::from_str("Element not found: ").concat(selector.as_str());
                r
            }
            SessionError::SelectorTimeout { selector, seconds } => {
                let r = String::from_str("Timeout waiting for selector: '").concat(
                    selector.as_str(),
                ).concat("' after ").concat(u64_to_dec(*seconds).as_str()).concat(" seconds");
                proof {
                    assert(r@ =~= error_message_spec(*self));
                }
                r
            }
            SessionError::TextTimeout { text, seconds } => {
                let r = String::from_str("Timeout waiting for text: '").concat(text.as_str())
                    .concat("' after ").concat(u64_to_dec(*seconds).as_str()).concat(" seconds");
                proof {
                    assert(r@ =~= error_message_spec(*self));
                }
                r
            }
            SessionError::NavigationTimeout { seconds } => {
                let r = String::from_str("Timeout waiting for navigation after ").concat(
                    u64_to_dec(*seconds).as_str(),
                ).concat(" seconds");
                proof {
                    assert(r@ =~= error_message_spec(*self));
                }
                r
            }
            SessionError::FillFailed { selector } => {
                let r = String::from_str("Failed to fill field: ").concat(selector.as_str());
                r
            }
            SessionError::FieldNotFound { selector } => {
                let r = String::from_str("Field not found: ").concat(selector.as_str());
                r
            }
            SessionError::FormNotFound => String::from_str("Form not found or submission failed"),
            SessionError::FormEvalFailed => String::from_str("Form submission failed"),
        }
    }
}

} // verus!
