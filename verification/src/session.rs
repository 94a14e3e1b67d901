//! The decisions of the session facade that do not touch the driver: which
//! scroll command a direction token means, whether a passive command may run
//! before the session exists, which search input candidate wins, and what
//! the driver's script results mean for the caller.

use vstd::prelude::*;

use crate::errors::SessionError;
use crate::text::str_eq;

verus! {

/// What a scroll command does: move by a signed pixel amount (positive is
/// down), or jump to an end of the document.
#[derive(Clone, Copy, Debug, PartialEq, Eq, Structural)]
pub enum ScrollAction {
    By(i64),
    ToTop,
    ToBottom,
}

/// Validates a scroll direction and resolves the pixel amount: `up` and
/// `down` move by the given amount (default 300), with the sign flipped for
/// `up`; `top` and `bottom` jump; anything else is rejected, never silently
/// ignored.
pub fn scroll_action(direction: &str, amount: Option<i32>) -> (r: Result<
    ScrollAction,
    SessionError,
>)
    ensures
        ({
            let amt: int = match amount {
                Some(a) => a as int,
                None => 300,
            };
            &&& direction@ == "up"@ ==> (r matches Ok(ScrollAction::By(x)) && x as int == -amt)
            &&& direction@ == "down"@ ==> (r matches Ok(ScrollAction::By(x)) && x as int == amt)
            &&& direction@ == "top"@ ==> r == Ok::<ScrollAction, SessionError>(ScrollAction::ToTop)
            &&& direction@ == "bottom"@ ==> r == Ok::<ScrollAction, SessionError>(
                ScrollAction::ToBottom,
            )
            &&& (direction@ != "up"@ && direction@ != "down"@ && direction@ != "top"@
                && direction@ != "bottom"@) ==> r == Err::<ScrollAction, SessionError>(
                SessionError::InvalidScrollDirection,
            )
        }),
{
    proof {
        reveal_strlit("up");
        reveal_strlit("down");
        reveal_strlit("top");
        reveal_strlit("bottom");
        assert("up"@.len() == 2);
        assert("down"@.len() == 4);
        assert("top"@.len() == 3);
        assert("bottom"@.len() == 6);
    }
    let amt: i64 = match amount {
        Some(a) => a as i64,
        None => 300,
    };
    if str_eq(direction, "up") {
        Ok(ScrollAction::By(-amt))
    } else if str_eq(direction, "down") {
        Ok(ScrollAction::By(amt))
    } else if str_eq(direction, "top") {
        Ok(ScrollAction::ToTop)
    } else if str_eq(direction, "bottom") {
        Ok(ScrollAction::ToBottom)
    } else {
        Err(SessionError::InvalidScrollDirection)
    }
}

/// Guards a passive command that needs an existing page: such a command
/// fails fast instead of starting a session.
pub fn require_page(page_present: bool) -> (r: Result<(), SessionError>)
    ensures
        page_present ==> r is Ok,
        !page_present ==> r == Err::<(), SessionError>(SessionError::NotInitialized),
{
    if page_present {
        Ok(())
    } else {
        Err(SessionError::NotInitialized)
    }
}

/// The status line: the page summary once a session exists, a fixed notice
/// before that.
pub fn status_line(initialized: bool, info: &str) -> (r: String)
    ensures
        r@ == if initialized {
            info@
        } else {
            "Browser not ready"@
        },
{
    if initialized {
        String::from_str(info)
    } else {
        String::from_str("Browser not ready")
    }
}

/// The candidate selectors a page-level search tries, in priority order.
pub fn search_selectors() -> (r: Vec<&'static str>)
    ensures
        r@.len() == 6,
        r@[0]@ == "input[type=\"search\"]"@,
        r@[1]@ == "input[placeholder*=\"search\" i]"@,
        r@[2]@ == "input[name*=\"search\" i]"@,
        r@[3]@ == "input[id*=\"search\" i]"@,
        r@[4]@ == ".search input"@,
        r@[5]@ == "#search input"@,
{
    let mut r: Vec<&'static str> = Vec::new();
    r.push("input[type=\"search\"]");
    r.push("input[placeholder*=\"search\" i]");
    r.push("input[name*=\"search\" i]");
    r.push("input[id*=\"search\" i]");
    r.push(".search input");
    r.push("#search input");
    r
}

/// First-match-wins over an ordered list of candidate lookups: the index of
/// the first candidate that matched, or nothing when none did (the caller
/// reports one aggregated failure).
pub fn first_hit(found: &Vec<bool>) -> (r: Option<usize>)
    ensures
        match r {
            Some(i) => i < found@.len() && found@[i as int] && (forall|j: int|
                0 <= j < i ==> !found@[j]),
            None => forall|j: int| 0 <= j < found@.len() ==> !found@[j],
        },
{
    let mut i: usize = 0;
    while i < found.len()
        invariant
            i <= found@.len(),
            forall|j: int| 0 <= j < i ==> !found@[j],
        decreases found@.len() - i,
    {
        if found[i] {
            return Some(i);
        }
        i = i + 1;
    }
    None
}

/// What the fill script reported: the script verifies that the field's final
/// value equals the requested one, so only that verdict decides success; a
/// missing verdict means the field was never found.
pub fn fill_outcome(selector: &str, reported: Option<bool>) -> (r: Result<(), SessionError>)
    ensures
        match reported {
            Some(true) => r is Ok,
            Some(false) => r matches Err(SessionError::FillFailed { selector: s }) && s@
                == selector@,
            None => r matches Err(SessionError::FieldNotFound { selector: s }) && s@ == selector@,
        },
{
    match reported {
        Some(true) => Ok(()),
        Some(false) => Err(SessionError::FillFailed { selector: String::from_str(selector) }),
        None => Err(SessionError::FieldNotFound { selector: String::from_str(selector) }),
    }
}

/// What the submit script reported: finding no form is a different failure
/// from the script evaluation yielding nothing at all.
pub fn submit_outcome(reported: Option<bool>) -> (r: Result<(), SessionError>)
    ensures
        match reported {
            Some(true) => r is Ok,
            Some(false) => r == Err::<(), SessionError>(SessionError::FormNotFound),
            None => r == Err::<(), SessionError>(SessionError::FormEvalFailed),
        },
{
    match reported {
        Some(true) => Ok(()),
        Some(false) => Err(SessionError::FormNotFound),
        None => Err(SessionError::FormEvalFailed),
    }
}

/// What the highlight script reported: only an explicit "not found" verdict
/// is an error; no verdict leaves the command quiet.
pub fn highlight_outcome(selector: &str, reported: Option<bool>) -> (r: Result<(), SessionError>)
    ensures
        match reported {
            Some(false) => r matches Err(SessionError::ElementNotFound { selector: s }) && s@
                == selector@,
            Some(true) => r is Ok,
            None => r is Ok,
        },
{
    match reported {
        Some(false) => Err(
            SessionError::ElementNotFound { selector: String::from_str(selector) },
        ),
        _ => Ok(()),
    }
}

} // verus!
