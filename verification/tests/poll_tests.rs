use browser_cli::poll::poll_clock_for;
use browser_cli::poll::run_poll;
use browser_cli::poll::wait_timeout_secs;
use browser_cli::poll::PollClock;
use browser_cli::poll::PollOutcome;
use browser_cli::poll::WaitKind;
use browser_cli::poll::POLL_INTERVAL_MS;

#[test]
fn succeeds_exactly_on_the_first_true_poll() {
    // The predicate becomes true on the third poll (k = 3, 0-based index 2),
    // well before the 10 s deadline.
    let outcomes = vec![false, false, true, true];
    let r = run_poll(&outcomes, 10_000, POLL_INTERVAL_MS);
    assert_eq!(r, PollOutcome::Success { polls: 3 });
}

#[test]
fn succeeds_on_the_first_poll() {
    let outcomes = vec![true];
    let r = run_poll(&outcomes, 10_000, 500);
    assert_eq!(r, PollOutcome::Success { polls: 1 });
}

#[test]
fn times_out_within_one_interval_of_the_deadline() {
    // Never true: elapsed lands at the first multiple of the interval at or
    // past the deadline.
    let outcomes = vec![false, false];
    let r = run_poll(&outcomes, 1_200, 500);
    assert_eq!(r, PollOutcome::TimedOut { elapsed_ms: 1_500 });

    let r = run_poll(&outcomes, 1_000, 500);
    assert_eq!(r, PollOutcome::TimedOut { elapsed_ms: 1_000 });
}

#[test]
fn a_true_poll_past_the_deadline_does_not_count() {
    // Only two polls fit before the 1 s deadline; the third observation is
    // never made.
    let outcomes = vec![false, false, true];
    let r = run_poll(&outcomes, 1_000, 500);
    assert_eq!(r, PollOutcome::TimedOut { elapsed_ms: 1_000 });
}

#[test]
fn clock_expires_after_the_deadline() {
    let mut clock = PollClock::new(1_000, 500);
    assert!(!clock.expired());
    clock.advance();
    assert!(!clock.expired());
    clock.advance();
    assert!(clock.expired());
}

#[test]
fn clock_for_seconds_scales_to_millis() {
    let clock = poll_clock_for(10, 500);
    assert_eq!(clock.timeout_ms, 10_000);
    assert_eq!(clock.interval_ms, 500);
    assert_eq!(clock.elapsed_ms, 0);
}

#[test]
fn wait_defaults_differ_per_kind() {
    assert_eq!(wait_timeout_secs(WaitKind::Selector, None), 10);
    assert_eq!(wait_timeout_secs(WaitKind::Text, None), 10);
    assert_eq!(wait_timeout_secs(WaitKind::Navigation, None), 30);
    assert_eq!(wait_timeout_secs(WaitKind::Navigation, Some(5)), 5);
}
