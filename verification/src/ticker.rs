//! The change-detection ticker: a page-state projection is captured once per
//! interval, hashed, and compared against the hash seen before. The first
//! observation establishes a baseline; later ones report a change exactly
//! when the hash moved. The capture timestamp is never part of the hashed
//! projection, so the clock alone never registers as a change.

use vstd::prelude::*;

verus! {

/// The hex rendering of the MD5 digest of a snapshot text: a function of the
/// text alone.
pub uninterp spec fn md5_hex_of(s: Seq<char>) -> Seq<char>;

/// Relies on `md5::compute` and the `LowerHex` rendering of its `Digest`:
/// two lowercase hex digits per digest byte, 32 characters in all, a
/// function of the input text alone.
#[verifier::external_body]
pub(crate) fn md5_hex(content: &str) -> (r: String)
    ensures
        r@ == md5_hex_of(content@),
        r@.len() == 32,
{
    format!("{:x}", md5::compute(content.as_bytes()))
}

/// What one tick reported: the first observation, an observation whose
/// hash moved, or one whose hash is the same as the last one stored.
#[derive(Clone, Copy, Debug, PartialEq, Eq, Structural)]
pub enum TickEvent {
    Baseline,
    Changed,
    Unchanged,
}

/// The ticker's state between observations.
pub struct Ticker {
    pub interval_secs: u64,
    pub max_iterations: Option<u64>,
    pub iterations: u64,
    pub last_hash: Option<String>,
}

impl Ticker {
    /// A valid ticker never sleeps zero seconds between ticks.
    pub open spec fn wf(&self) -> bool {
        self.interval_secs > 0
    }

    pub fn new(interval_secs: u64, max_iterations: Option<u64>) -> (r: Ticker)
        requires
            interval_secs > 0,
        ensures
            r.wf(),
            r.interval_secs == interval_secs,
            r.max_iterations == max_iterations,
            r.iterations == 0,
            r.last_hash is None,
    {
        Ticker { interval_secs, max_iterations, iterations: 0, last_hash: None }
    }

    /// Whether the ticker has used up its iteration budget; a ticker without
    /// one never finishes on its own.
    pub fn finished(&self) -> (r: bool)
        ensures
            r == match self.max_iterations {
                Some(m) => self.iterations >= m,
                None => false,
            },
    {
        match &self.max_iterations {
            Some(m) => self.iterations >= *m,
            None => false,
        }
    }

    /// Records one observed snapshot hash. The first observation is the
    /// baseline; afterwards the event says exactly whether the hash moved,
    /// and the stored hash moves with it.
    pub fn observe_hash(&mut self, h: String) -> (ev: TickEvent)
        requires
            old(self).iterations < u64::MAX,
        ensures
            final(self).interval_secs == old(self).interval_secs,
            final(self).max_iterations == old(self).max_iterations,
            final(self).iterations == old(self).iterations + 1,
            final(self).last_hash matches Some(stored) && stored@ == h@,
            match old(self).last_hash {
                None => ev == TickEvent::Baseline,
                Some(prev) => ev == if prev@ == h@ {
                    TickEvent::Unchanged
                } else {
                    TickEvent::Changed
                },
            },
    {
        let ev = match &self.last_hash {
            None => TickEvent::Baseline,
            Some(prev) => {
                if prev.eq(&h) {
                    TickEvent::Unchanged
                } else {
                    TickEvent::Changed
                }
            }
        };
        self.last_hash = Some(h);
        self.iterations = self.iterations + 1;
        ev
    }

    /// Records one tick whose snapshot capture failed: the tick is spent,
    /// but the stored hash is left as it was.
    pub fn skip_tick(&mut self)
        requires
            old(self).iterations < u64::MAX,
        ensures
            final(self).interval_secs == old(self).interval_secs,
            final(self).max_iterations == old(self).max_iterations,
            final(self).iterations == old(self).iterations + 1,
            final(self).last_hash == old(self).last_hash,
    {
        self.iterations = self.iterations + 1;
    }

    /// Hashes one captured snapshot text and records it.
    pub fn tick(&mut self, content: &str) -> (ev: TickEvent)
        requires
            old(self).iterations < u64::MAX,
        ensures
            final(self).interval_secs == old(self).interval_secs,
            final(self).max_iterations == old(self).max_iterations,
            final(self).iterations == old(self).iterations + 1,
            final(self).last_hash matches Some(stored) && stored@ == md5_hex_of(content@),
            match old(self).last_hash {
                None => ev == TickEvent::Baseline,
                Some(prev) => ev == if prev@ == md5_hex_of(content@) {
                    TickEvent::Unchanged
                } else {
                    TickEvent::Changed
                },
            },
    {
        let h = md5_hex(content);
        self.observe_hash(h)
    }
}

/// Runs a whole ticker pass over a given series of snapshot texts, stopping
/// at the iteration budget. The first event is always the baseline; each
/// later event is `Unchanged` exactly when its snapshot hashes the same as
/// the one just before it, so a snapshot repeated back to back never raises
/// a second change event.
pub fn run_ticker(contents: &Vec<String>, interval_secs: u64, max_iterations: u64) -> (events: Vec<
    TickEvent,
>)
    requires
        interval_secs > 0,
    ensures
        events@.len() == if contents@.len() <= max_iterations {
            contents@.len() as int
        } else {
            max_iterations as int
        },
        events@.len() > 0 ==> events@[0] == TickEvent::Baseline,
        forall|i: int|
            1 <= i < events@.len() ==> events@[i] == (if md5_hex_of(contents@[i]@) == md5_hex_of(
                contents@[i - 1]@,
            ) {
                TickEvent::Unchanged
            } else {
                TickEvent::Changed
            }),
{
    let mut ticker = Ticker::new(interval_secs, Some(max_iterations));
    let mut events: Vec<TickEvent> = Vec::new();
    let mut i: usize = 0;
    while i < contents.len() && (i as u64) < max_iterations
        invariant
            i <= contents@.len(),
            i <= max_iterations,
            events@.len() == i,
            ticker.iterations == i,
            ticker.max_iterations == Some(max_iterations),
            i == 0 ==> ticker.last_hash is None,
            i > 0 ==> (ticker.last_hash matches Some(stored) && stored@ == md5_hex_of(
                contents@[i - 1]@,
            )),
            i > 0 ==> events@[0] == TickEvent::Baseline,
            forall|j: int|
                1 <= j < i ==> events@[j] == (if md5_hex_of(contents@[j]@) == md5_hex_of(
                    contents@[j - 1]@,
                ) {
                    TickEvent::Unchanged
                } else {
                    TickEvent::Changed
                }),
        decreases contents@.len() - i,
    {
        let ev = ticker.tick(contents[i].as_str());
        events.push(ev);
        i = i + 1;
    }
    events
}

} // verus!
