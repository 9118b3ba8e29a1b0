//! Debounce for push: rapid local edits are batched until writing has paused.

use vstd::prelude::*;
use crate::clock::{elapsed_millis, instant_now};

verus! {

/// Milliseconds that must pass after the last local write before a push is flushed.
pub const DEBOUNCE_MILLIS: u128 = 3000;

/// True once the debounce window has fully elapsed.
pub fn debounce_elapsed(elapsed_millis: u128) -> (r: bool)
    ensures
        r == (elapsed_millis >= DEBOUNCE_MILLIS),
{
    elapsed_millis >= DEBOUNCE_MILLIS
}

/// Milliseconds from `since` to `now` on one clock, none when `now` is earlier (as
/// `Instant::elapsed` saturates).
pub open spec fn millis_between(since: u128, now: u128) -> u128 {
    if now >= since { (now - since) as u128 } else { 0 }
}

/// Tracks the time of the last local write for debounced push. Times are milliseconds on the
/// scheduler's own monotonic clock, counted from when it was made; the scheduler also keeps the
/// latest time it has seen, which no recorded write is after.
pub struct SyncScheduler {
    origin: std::time::Instant,
    last_write: Option<u128>,
    latest: u128,
}

impl SyncScheduler {
    /// The time of the last recorded write, if one is waiting to be flushed.
    pub closed spec fn last_write(&self) -> Option<u128> {
        self.last_write
    }

    /// The latest time the scheduler has seen.
    pub closed spec fn latest(&self) -> u128 {
        self.latest
    }

    #[verifier::type_invariant]
    closed spec fn write_not_after_latest(&self) -> bool {
        self.last_write matches Some(w) ==> w <= self.latest
    }

    /// Whether a local write is waiting to be flushed.
    pub open spec fn has_pending_write(&self) -> bool {
        self.last_write() is Some
    }

    /// Whether the push is due at `now`: a write is waiting and the debounce window has fully
    /// passed since it.
    pub open spec fn flush_due(&self, now: u128) -> bool {
        self.last_write() matches Some(w) && millis_between(w, now) >= DEBOUNCE_MILLIS
    }

    /// A scheduler with no write recorded.
    pub fn new() -> (r: Self)
        ensures
            r.last_write() is None,
            r.latest() == 0,
    {
        SyncScheduler { origin: instant_now(), last_write: None, latest: 0 }
    }

    /// The scheduler's clock: milliseconds since it was made, never earlier than the latest
    /// time seen. The reading comes from the clock.
    pub fn now_millis(&self) -> (r: u128)
        ensures
            r >= self.latest(),
    {
        let t = elapsed_millis(&self.origin);
        if t >= self.latest { t } else { self.latest }
    }

    /// Records a local write at `now`; the debounce window restarts from it.
    pub fn record_write_at(&mut self, now: u128)
        ensures
            final(self).last_write() == Some(now),
            final(self).latest() == (if now >= old(self).latest() { now } else { old(self).latest() }),
    {
        proof {
            use_type_invariant(&*self);
        }
        let latest = if now >= self.latest { now } else { self.latest };
        self.latest = latest;
        self.last_write = Some(now);
    }

    /// Records a local write now: the debounce window restarts at the present time, which is
    /// the latest time seen and no earlier than any before.
    pub fn on_local_write(&mut self)
        ensures
            final(self).last_write() == Some(final(self).latest()),
            final(self).latest() >= old(self).latest(),
    {
        let now = self.now_millis();
        self.record_write_at(now);
    }

    /// Whether the push is due at `now`.
    pub fn should_flush_at(&self, now: u128) -> (r: bool)
        ensures
            r == self.flush_due(now),
    {
        match self.last_write {
            None => false,
            Some(w) => {
                let elapsed: u128 = if now >= w { now - w } else { 0 };
                debounce_elapsed(elapsed)
            },
        }
    }

    /// Whether the push is due now: `should_flush_at` the present time, which is no earlier
    /// than the latest time seen. So it is due whenever it was due at that latest time.
    pub fn should_flush(&self) -> (r: bool)
        ensures
            exists|now: u128| now >= self.latest() && r == self.flush_due(now),
            self.flush_due(self.latest()) ==> r,
            !self.has_pending_write() ==> !r,
    {
        proof {
            use_type_invariant(self);
        }
        let now = self.now_millis();
        let r = self.should_flush_at(now);
        r
    }

    /// Forgets the recorded write.
    pub fn clear(&mut self)
        ensures
            final(self).last_write() is None,
            final(self).latest() == old(self).latest(),
    {
        self.last_write = None;
    }
}

/// Each write restarts the debounce: right after a write at `t` nothing is due before
/// `t + DEBOUNCE_MILLIS`, and from then on the push is due.
pub proof fn law_write_restarts_debounce(s: SyncScheduler, t: u128, now: u128)
    requires
        s.last_write() == Some(t),
    ensures
        now < t + DEBOUNCE_MILLIS ==> !s.flush_due(now),
        now >= t + DEBOUNCE_MILLIS ==> s.flush_due(now),
{
}

impl Default for SyncScheduler {
    fn default() -> (r: Self)
        ensures
            r.last_write() is None,
    {
        SyncScheduler::new()
    }
}

} // verus!
