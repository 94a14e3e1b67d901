//! The scripts the session evaluates in the page, built exactly: fixed ones
//! as named constants, parameterized ones as concatenations whose contracts
//! spell out the resulting text.

use vstd::prelude::*;

use crate::numbers::dec_of_int;
use crate::numbers::i64_to_dec;
use crate::session::ScrollAction;

verus! {

/// The script one scroll action evaluates.
pub fn scroll_script(action: &ScrollAction) -> (r: String)
    ensures
        r@ == match *action {
            ScrollAction::By(a) => "window.scrollBy(0, "@ + dec_of_int(a as int) + ")"@,
            ScrollAction::ToTop => "window.scrollTo(0, 0)"@,
            ScrollAction::ToBottom => "window.scrollTo(0, document.body.scrollHeight)"@,
        },
{
    match action {
        ScrollAction::By(a) => {
            let r = String::from_str("window.scrollBy(0, ").concat(i64_to_dec(*a).as_str()).concat(
                ")",
            );
            proof {
                assert(r@ =~= "window.scrollBy(0, "@ + dec_of_int(*a as int) + ")"@);
            }
            r
        }
        ScrollAction::ToTop => String::from_str("window.scrollTo(0, 0)"),
        ScrollAction::ToBottom => String::from_str("window.scrollTo(0, document.body.scrollHeight)"),
    }
}

/// The backup existence check a lookup falls back on.
pub fn element_exists_script(selector: &str) -> (r: String)
    ensures
        r@ == "document.querySelector('"@ + selector@ + "') !== null"@,
{
    let r = String::from_str("document.querySelector('").concat(selector).concat("') !== null");
    proof {
        assert(r@ =~= "document.querySelector('"@ + selector@ + "') !== null"@);
    }
    r
}

/// The synthesized Enter keydown a search sends to the focused input.
pub fn enter_key_script() -> (r: &'static str)
    ensures
        r@
            == "document.activeElement.dispatchEvent(new KeyboardEvent('keydown', {key: 'Enter', code: 'Enter'}))"@,
{
    "document.activeElement.dispatchEvent(new KeyboardEvent('keydown', {key: 'Enter', code: 'Enter'}))"
}

pub fn history_back_script() -> (r: &'static str)
    ensures
        r@ == "window.history.back()"@,
{
    "window.history.back()"
}

pub fn history_forward_script() -> (r: &'static str)
    ensures
        r@ == "window.history.forward()"@,
{
    "window.history.forward()"
}

/// What the wait-for-text poll reads on each try.
pub fn body_text_script() -> (r: &'static str)
    ensures
        r@ == "document.body.innerText"@,
{
    "document.body.innerText"
}

/// What the wait-for-navigation poll reads on each try.
pub fn ready_state_script() -> (r: &'static str)
    ensures
        r@ == "document.readyState"@,
{
    "document.readyState"
}

pub fn local_storage_script() -> (r: &'static str)
    ensures
        r@ == "JSON.stringify(Object.entries(localStorage))"@,
{
    "JSON.stringify(Object.entries(localStorage))"
}

pub fn session_storage_script() -> (r: &'static str)
    ensures
        r@ == "JSON.stringify(Object.entries(sessionStorage))"@,
{
    "JSON.stringify(Object.entries(sessionStorage))"
}

pub fn clear_cookies_script() -> (r: &'static str)
    ensures
        r@
            == "document.cookie.split(';').forEach(cookie => { document.cookie = cookie.replace(/^ +/, '').replace(/=.*/, '=;expires=' + new Date().toUTCString() + ';path=/'); });"@,
{
    "document.cookie.split(';').forEach(cookie => { document.cookie = cookie.replace(/^ +/, '').replace(/=.*/, '=;expires=' + new Date().toUTCString() + ';path=/'); });"
}

/// The script that sets one cookie on the current document.
pub fn set_cookie_script(name: &str, value: &str, domain: &str) -> (r: String)
    ensures
        r@ == "document.cookie = '"@ + name@ + "="@ + value@ + ";domain="@ + domain@
            + ";path=/;'"@,
{
    let r = String::from_str("document.cookie = '").concat(name).concat("=").concat(value).concat(
        ";domain=",
    ).concat(domain).concat(";path=/;'");
    proof {
        assert(r@ =~= "document.cookie = '"@ + name@ + "="@ + value@ + ";domain="@ + domain@
            + ";path=/;'"@);
    }
    r
}

/// The element counts the concise page summary reports.
pub fn element_counts_script() -> (r: &'static str)
    ensures
        r@
            == "JSON.stringify({inputs: document.querySelectorAll('input:not([type=\"hidden\"]), textarea, select').length, buttons: document.querySelectorAll('button, input[type=\"submit\"], input[type=\"button\"]').length, links: document.querySelectorAll('a[href]').length})"@,
{
    "JSON.stringify({inputs: document.querySelectorAll('input:not([type=\"hidden\"]), textarea, select').length, buttons: document.querySelectorAll('button, input[type=\"submit\"], input[type=\"button\"]').length, links: document.querySelectorAll('a[href]').length})"
}

/// The visible interactive elements listed for the caller.
pub fn interactive_elements_script() -> (r: &'static str)
    ensures
        r@
            == "JSON.stringify({inputs: Array.from(document.querySelectorAll('input:not([type=\"hidden\"]), select, textarea')).filter(el => el.offsetParent !== null).map(el => ({type: el.type || el.tagName.toLowerCase(), id: el.id, name: el.name, placeholder: el.placeholder})).slice(0, 10), buttons: Array.from(document.querySelectorAll('button, input[type=\"submit\"], input[type=\"button\"]')).filter(el => el.offsetParent !== null).map(el => ({text: (el.textContent || el.value || '').trim().substring(0, 30), id: el.id})).slice(0, 8), links: Array.from(document.querySelectorAll('a[href]')).filter(el => el.offsetParent !== null && el.textContent.trim()).map(el => ({text: el.textContent.trim().substring(0, 30), href: el.href.substring(0, 50)})).slice(0, 8)})"@,
{
    "JSON.stringify({inputs: Array.from(document.querySelectorAll('input:not([type=\"hidden\"]), select, textarea')).filter(el => el.offsetParent !== null).map(el => ({type: el.type || el.tagName.toLowerCase(), id: el.id, name: el.name, placeholder: el.placeholder})).slice(0, 10), buttons: Array.from(document.querySelectorAll('button, input[type=\"submit\"], input[type=\"button\"]')).filter(el => el.offsetParent !== null).map(el => ({text: (el.textContent || el.value || '').trim().substring(0, 30), id: el.id})).slice(0, 8), links: Array.from(document.querySelectorAll('a[href]')).filter(el => el.offsetParent !== null && el.textContent.trim()).map(el => ({text: el.textContent.trim().substring(0, 30), href: el.href.substring(0, 50)})).slice(0, 8)})"
}

/// The script that flashes a temporary border around one element and reports
/// whether it was found.
pub fn highlight_script(selector: &str) -> (r: String)
    ensures
        r@ == "(function() { const element = document.querySelector('"@ + selector@
            + "'); if (element) { element.style.border = '3px solid red'; element.style.outline = '2px solid yellow'; setTimeout(() => { element.style.border = ''; element.style.outline = ''; }, 3000); return true; } return false; })()"@,
{
    let r = String::from_str("(function() { const element = document.querySelector('").concat(
        selector,
    ).concat(
        "'); if (element) { element.style.border = '3px solid red'; element.style.outline = '2px solid yellow'; setTimeout(() => { element.style.border = ''; element.style.outline = ''; }, 3000); return true; } return false; })()",
    );
    proof {
        assert(r@ =~= "(function() { const element = document.querySelector('"@ + selector@
            + "'); if (element) { element.style.border = '3px solid red'; element.style.outline = '2px solid yellow'; setTimeout(() => { element.style.border = ''; element.style.outline = ''; }, 3000); return true; } return false; })()"@);
    }
    r
}

/// The script that fills one form field in place: focus, clear, set, fire
/// the notification events, re-assert the attribute, and report whether the
/// final value equals the requested one.
pub fn fill_script(selector: &str, value: &str) -> (r: String)
    ensures
        r@ == "(function() { const element = document.querySelector('"@ + selector@
            + "'); if (!element) return false; element.focus(); element.value = ''; element.value = '"@
            + value@
            + "'; element.dispatchEvent(new Event('focus', {bubbles: true})); element.dispatchEvent(new Event('input', {bubbles: true})); element.dispatchEvent(new Event('change', {bubbles: true})); element.dispatchEvent(new Event('blur', {bubbles: true})); element.setAttribute('value', '"@
            + value@ + "'); return element.value === '"@ + value@ + "'; })()"@,
{
    let r = String::from_str("(function() { const element = document.querySelector('").concat(
        selector,
    ).concat(
        "'); if (!element) return false; element.focus(); element.value = ''; element.value = '",
    ).concat(value).concat(
        "'; element.dispatchEvent(new Event('focus', {bubbles: true})); element.dispatchEvent(new Event('input', {bubbles: true})); element.dispatchEvent(new Event('change', {bubbles: true})); element.dispatchEvent(new Event('blur', {bubbles: true})); element.setAttribute('value', '",
    ).concat(value).concat("'); return element.value === '").concat(value).concat("'; })()");
    proof {
        assert(r@ =~= "(function() { const element = document.querySelector('"@ + selector@
            + "'); if (!element) return false; element.focus(); element.value = ''; element.value = '"@
            + value@
            + "'; element.dispatchEvent(new Event('focus', {bubbles: true})); element.dispatchEvent(new Event('input', {bubbles: true})); element.dispatchEvent(new Event('change', {bubbles: true})); element.dispatchEvent(new Event('blur', {bubbles: true})); element.setAttribute('value', '"@
            + value@ + "'); return element.value === '"@ + value@ + "'; })()"@);
    }
    r
}

/// The script that submits a form: the one an explicit selector names, or
/// the first form on the page.
pub fn submit_form_script(selector: Option<&str>) -> (r: String)
    ensures
        r@ == match selector {
            Some(sel) => "(function() { const form = document.querySelector('"@ + sel@
                + "'); if (form) { form.submit(); return true; } return false; })()"@,
            None => "(function() { const form = document.querySelector('form'); if (form) { form.submit(); return true; } return false; })()"@,
        },
{
    match selector {
        Some(sel) => {
            let r = String::from_str("(function() { const form = document.querySelector('").concat(
                sel,
            ).concat("'); if (form) { form.submit(); return true; } return false; })()");
            proof {
                assert(r@ =~= "(function() { const form = document.querySelector('"@ + sel@
                    + "'); if (form) { form.submit(); return true; } return false; })()"@);
            }
            r
        }
        None => String::from_str(
            "(function() { const form = document.querySelector('form'); if (form) { form.submit(); return true; } return false; })()",
        ),
    }
}

/// The ticker's selector-scoped snapshot: the match count and the joined
/// trimmed text of the matches. The capture clock is deliberately not part
/// of the snapshot, so hashing it never sees the time.
pub fn selector_monitor_script(selector: &str) -> (r: String)
    ensures
        r@ == "JSON.stringify({selector: '"@ + selector@ + "', count: document.querySelectorAll('"@
            + selector@ + "').length, text: Array.from(document.querySelectorAll('"@ + selector@
            + "')).map(el => el.textContent.trim()).join(' | ')})"@,
{
    let r = String::from_str("JSON.stringify({selector: '").concat(selector).concat(
        "', count: document.querySelectorAll('",
    ).concat(selector).concat("').length, text: Array.from(document.querySelectorAll('").concat(
        selector,
    ).concat("')).map(el => el.textContent.trim()).join(' | ')})");
    proof {
        assert(r@ =~= "JSON.stringify({selector: '"@ + selector@
            + "', count: document.querySelectorAll('"@ + selector@
            + "').length, text: Array.from(document.querySelectorAll('"@ + selector@
            + "')).map(el => el.textContent.trim()).join(' | ')})"@);
    }
    r
}

/// The ticker's whole-page snapshot: URL, title and the coarse element
/// counts, again without the capture clock.
pub fn page_monitor_script() -> (r: &'static str)
    ensures
        r@
            == "JSON.stringify({url: window.location.href, title: document.title, inputs: document.querySelectorAll('input:not([type=\"hidden\"]), textarea').length, buttons: document.querySelectorAll('button, input[type=\"submit\"], input[type=\"button\"]').length, forms: document.querySelectorAll('form').length})"@,
{
    "JSON.stringify({url: window.location.href, title: document.title, inputs: document.querySelectorAll('input:not([type=\"hidden\"]), textarea').length, buttons: document.querySelectorAll('button, input[type=\"submit\"], input[type=\"button\"]').length, forms: document.querySelectorAll('form').length})"
}

} // verus!
