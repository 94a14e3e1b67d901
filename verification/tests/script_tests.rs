use browser_cli::scripts::element_exists_script;
use browser_cli::scripts::fill_script;
use browser_cli::scripts::highlight_script;
use browser_cli::scripts::page_monitor_script;
use browser_cli::scripts::scroll_script;
use browser_cli::scripts::selector_monitor_script;
use browser_cli::scripts::set_cookie_script;
use browser_cli::scripts::submit_form_script;
use browser_cli::session::ScrollAction;

#[test]
fn scroll_scripts_render_their_amounts() {
    assert_eq!(
        scroll_script(&ScrollAction::By(100)),
        "window.scrollBy(0, 100)"
    );
    assert_eq!(
        scroll_script(&ScrollAction::By(-300)),
        "window.scrollBy(0, -300)"
    );
    assert_eq!(scroll_script(&ScrollAction::ToTop), "window.scrollTo(0, 0)");
    assert_eq!(
        scroll_script(&ScrollAction::ToBottom),
        "window.scrollTo(0, document.body.scrollHeight)"
    );
}

#[test]
fn existence_check_embeds_the_selector() {
    assert_eq!(
        element_exists_script(".done"),
        "document.querySelector('.done') !== null"
    );
}

#[test]
fn set_cookie_script_embeds_all_three_parts() {
    assert_eq!(
        set_cookie_script("k", "v", "example.com"),
        "document.cookie = 'k=v;domain=example.com;path=/;'"
    );
}

#[test]
fn submit_script_uses_the_selector_or_the_first_form() {
    assert_eq!(
        submit_form_script(Some("#checkout")),
        "(function() { const form = document.querySelector('#checkout'); if (form) { form.submit(); return true; } return false; })()"
    );
    assert!(submit_form_script(None).contains("document.querySelector('form')"));
}

#[test]
fn fill_script_verifies_the_final_value() {
    let s = fill_script("#name", "Ada");
    assert!(s.starts_with("(function() { const element = document.querySelector('#name');"));
    assert!(s.contains("element.value = 'Ada';"));
    assert!(s.contains("element.setAttribute('value', 'Ada');"));
    assert!(s.ends_with("return element.value === 'Ada'; })()"));
}

#[test]
fn highlight_script_embeds_the_selector_once() {
    let s = highlight_script(".hero");
    assert!(s.contains("document.querySelector('.hero')"));
    assert_eq!(s.matches(".hero").count(), 1);
}

#[test]
fn monitor_scripts_exclude_the_clock() {
    let scoped = selector_monitor_script(".row");
    assert!(scoped.contains("document.querySelectorAll('.row')"));
    assert!(!scoped.contains("Date.now"));
    assert!(!page_monitor_script().contains("Date.now"));
}
