use browser_cli::ticker::run_ticker;
use browser_cli::ticker::TickEvent;
use browser_cli::ticker::Ticker;

fn contents(items: &[&str]) -> Vec<String> {
    items.iter().map(|s| s.to_string()).collect()
}

#[test]
fn first_tick_is_baseline() {
    let mut t = Ticker::new(2, None);
    assert_eq!(t.tick("anything"), TickEvent::Baseline);
    assert_eq!(t.iterations, 1);
}

#[test]
fn tick_stores_the_snapshot_hash() {
    // The stored hash is the MD5 digest of the snapshot text, rendered in
    // lowercase hex, never the text itself.
    let mut t = Ticker::new(2, None);
    t.tick("abcdefghijklmnopqrstuvwxyz");
    assert_eq!(
        t.last_hash.as_deref(),
        Some("c3fcd3d76192e4007dfb496cca67e13b")
    );
    let mut e = Ticker::new(2, None);
    e.tick("");
    assert_eq!(e.last_hash.as_deref(), Some("d41d8cd98f00b204e9800998ecf8427e"));
}

#[test]
fn identical_snapshot_is_unchanged_and_differing_is_changed() {
    let mut t = Ticker::new(1, None);
    assert_eq!(t.tick("a"), TickEvent::Baseline);
    assert_eq!(t.tick("a"), TickEvent::Unchanged);
    assert_eq!(t.tick("b"), TickEvent::Changed);
    assert_eq!(t.tick("b"), TickEvent::Unchanged);
    assert_eq!(t.tick("a"), TickEvent::Changed);
}

#[test]
fn skipped_tick_spends_an_iteration_but_keeps_the_hash() {
    let mut t = Ticker::new(1, Some(5));
    t.tick("a");
    let stored = t.last_hash.clone();
    t.skip_tick();
    assert_eq!(t.iterations, 2);
    assert_eq!(t.last_hash, stored);
    // The next observation still compares against the snapshot before the
    // failed tick.
    assert_eq!(t.tick("a"), TickEvent::Unchanged);
}

#[test]
fn finished_honours_the_iteration_budget() {
    let mut t = Ticker::new(1, Some(2));
    assert!(!t.finished());
    t.tick("a");
    assert!(!t.finished());
    t.tick("a");
    assert!(t.finished());

    let mut unbounded = Ticker::new(1, None);
    for _ in 0..10 {
        unbounded.tick("x");
        assert!(!unbounded.finished());
    }
}

#[test]
fn ticker_run_reports_each_transition_once() {
    let events = run_ticker(&contents(&["a", "a", "b", "b", "a"]), 1, 100);
    assert_eq!(
        events,
        vec![
            TickEvent::Baseline,
            TickEvent::Unchanged,
            TickEvent::Changed,
            TickEvent::Unchanged,
            TickEvent::Changed,
        ]
    );
}

#[test]
fn ticker_run_halts_at_the_iteration_budget() {
    // One baseline and at most two further events, then the ticker stops on
    // its own.
    let events = run_ticker(&contents(&["a", "b", "b", "c", "d"]), 2, 3);
    assert_eq!(
        events,
        vec![TickEvent::Baseline, TickEvent::Changed, TickEvent::Unchanged]
    );
}
