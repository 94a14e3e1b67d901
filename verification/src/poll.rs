//! The fixed-interval polling primitive behind the wait commands: try a
//! predicate, and if it does not hold yet, sleep one interval and try again,
//! until the elapsed time reaches the deadline. The predicate is supplied by
//! the caller one observation at a time (or as a whole trace), so the loop's
//! bookkeeping is the same for every wait flavour.

use vstd::prelude::*;

verus! {

/// The fixed cadence every wait polls at.
pub const POLL_INTERVAL_MS: u64 = 500;

/// The flavours of wait the dispatcher offers.
#[derive(Clone, Copy, Debug, PartialEq, Eq, Structural)]
pub enum WaitKind {
    Selector,
    Text,
    Navigation,
}

/// The effective timeout of one wait in seconds: the explicit one when
/// given, otherwise the kind's default — 10 s for selector and text waits,
/// 30 s for navigation.
pub fn wait_timeout_secs(kind: WaitKind, requested: Option<u64>) -> (r: u64)
    ensures
        r == match requested {
            Some(t) => t,
            None => match kind {
                WaitKind::Selector => 10u64,
                WaitKind::Text => 10u64,
                WaitKind::Navigation => 30u64,
            },
        },
{
    match requested {
        Some(t) => t,
        None => match kind {
            WaitKind::Selector => 10,
            WaitKind::Text => 10,
            WaitKind::Navigation => 30,
        },
    }
}

/// How a polling run ended: the predicate held on some poll, or the deadline
/// passed first.
#[derive(Clone, Copy, Debug, PartialEq, Eq, Structural)]
pub enum PollOutcome {
    Success { polls: u64 },
    TimedOut { elapsed_ms: u64 },
}

/// The deadline bookkeeping of one polling run. Elapsed time advances by one
/// interval per unsuccessful poll; a poll is made only while the elapsed
/// time is still short of the deadline.
pub struct PollClock {
    pub timeout_ms: u64,
    pub interval_ms: u64,
    pub elapsed_ms: u64,
}

impl PollClock {
    pub open spec fn wf(&self) -> bool {
        &&& self.interval_ms > 0
    &&& self.timeout_ms + self.interval_ms <= u64::MAX
        &&& self.elapsed_ms < self.timeout_ms + self.interval_ms
    }

    pub fn new(timeout_ms: u64, interval_ms: u64) -> (r: PollClock)
        requires
            interval_ms > 0,
            timeout_ms + interval_ms <= u64::MAX,
        ensures
            r.wf(),
            r.timeout_ms == timeout_ms,
            r.interval_ms == interval_ms,
            r.elapsed_ms == 0,
    {
        PollClock { timeout_ms, interval_ms, elapsed_ms: 0 }
    }

    /// Whether the deadline has been reached, so no further poll is made.
    pub fn expired(&self) -> (r: bool)
        ensures
            r == (self.elapsed_ms >= self.timeout_ms),
    {
        self.elapsed_ms >= self.timeout_ms
    }

    /// Accounts for the sleep that follows an unsuccessful poll.
    pub fn advance(&mut self)
        requires
            old(self).wf(),
            old(self).elapsed_ms < old(self).timeout_ms,
        ensures
            final(self).wf(),
            final(self).timeout_ms == old(self).timeout_ms,
            final(self).interval_ms == old(self).interval_ms,
            final(self).elapsed_ms == old(self).elapsed_ms + old(self).interval_ms,
    {
        self.elapsed_ms = self.elapsed_ms + self.interval_ms;
    }
}

/// The clock for a wait of a whole number of seconds: the deadline is the
/// timeout in milliseconds, lowered just enough (only for outlandish inputs)
/// that one more interval can never overflow the elapsed counter.
pub fn poll_clock_for(timeout_secs: u64, interval_ms: u64) -> (r: PollClock)
    requires
        interval_ms > 0,
    ensures
        r.wf(),
        r.interval_ms == interval_ms,
        r.elapsed_ms == 0,
        r.timeout_ms == if timeout_secs * 1000 + interval_ms <= u64::MAX {
            (timeout_secs * 1000) as u64
        } else {
            (u64::MAX - interval_ms) as u64
        },
{
    let capped: u64 = match timeout_secs.checked_mul(1000) {
        Some(t) => {
            if t <= u64::MAX - interval_ms {
                t
            } else {
                u64::MAX - interval_ms
            }
        }
        None => u64::MAX - interval_ms,
    };
    PollClock::new(capped, interval_ms)
}

/// Runs a whole polling pass against a trace of predicate observations:
/// entry `i` is what the predicate would report on poll `i`, and a poll past
/// the end of the trace reports false. Success lands exactly on the first
/// true observation made before the deadline; otherwise the run times out
/// with an elapsed time at or past the deadline but short of it by less than
/// one interval.
pub fn run_poll(outcomes: &Vec<bool>, timeout_ms: u64, interval_ms: u64) -> (r: PollOutcome)
    requires
        interval_ms > 0,
        timeout_ms + interval_ms <= u64::MAX,
    ensures
        match r {
            PollOutcome::Success { polls } => {
                &&& 1 <= polls <= outcomes@.len()
                &&& outcomes@[polls - 1]
                &&& (forall|j: int| 0 <= j < polls - 1 ==> !outcomes@[j])
                &&& (polls - 1) * interval_ms < timeout_ms
            },
            PollOutcome::TimedOut { elapsed_ms } => {
                &&& timeout_ms <= elapsed_ms < timeout_ms + interval_ms
                &&& elapsed_ms % interval_ms == 0
                &&& (forall|i: int|
                    0 <= i < outcomes@.len() && i * interval_ms < timeout_ms ==> !outcomes@[i])
            },
        },
{
    let mut clock = PollClock::new(timeout_ms, interval_ms);
    let mut polls: u64 = 0;
    loop
        invariant
            clock.wf(),
            clock.timeout_ms == timeout_ms,
            clock.interval_ms == interval_ms,
            polls * interval_ms == clock.elapsed_ms,
            forall|j: int| 0 <= j < polls && j < outcomes@.len() ==> !outcomes@[j],
        decreases timeout_ms + interval_ms - clock.elapsed_ms,
    {
        if clock.expired() {
            proof {
                assert forall|i: int|
                    0 <= i < outcomes@.len() && i * interval_ms < timeout_ms implies !outcomes@[i]
                by {
                    if i >= polls {
                        assert(polls * interval_ms <= i * interval_ms) by (nonlinear_arith)
                            requires
                                0 <= polls <= i,
                                interval_ms > 0,
                        ;
                    }
                }
                assert(clock.elapsed_ms % interval_ms == 0) by (nonlinear_arith)
                    requires
                        interval_ms > 0,
                        polls * interval_ms == clock.elapsed_ms,
                        polls >= 0,
                ;
            }
            return PollOutcome::TimedOut { elapsed_ms: clock.elapsed_ms };
        }
        let observed = if (polls as usize) < outcomes.len() {
            outcomes[polls as usize]
        } else {
            false
        };
        proof {
            // One more poll is spent; its count stays clear of overflow
            // because every earlier poll advanced the clock by at least one.
            assert(polls <= clock.elapsed_ms) by (nonlinear_arith)
                requires
                    polls * interval_ms == clock.elapsed_ms,
                    interval_ms >= 1,
                    polls >= 0,
            ;
        }
        polls = polls + 1;
        if observed {
            return PollOutcome::Success { polls };
        }
        clock.advance();
        proof {
            assert(polls * interval_ms == (polls - 1) * interval_ms + interval_ms)
                by (nonlinear_arith);
        }
    }
}

} // verus!
