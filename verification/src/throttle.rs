//! The shared backpressure valve.
//!
//! Every outgoing score request first passes the valve non-exclusively; a
//! caller that sees a rate-limit signal closes the valve until a wall-clock
//! deadline. While the valve is closed no request passes, which serializes
//! bursts after a rate-limit signal. The valve is an explicit deadline
//! timestamp compared against the current time; the program around the
//! library keeps one valve behind a lock, asks it whether a request may go
//! out, and sleeps until the deadline it reports.

use vstd::prelude::*;

verus! {

/// A valve that is open, or closed until a deadline (milliseconds of wall
/// clock). A deadline of zero means the valve has never been closed.
pub struct Throttle {
    closed_until_ms: u64,
}

impl Throttle {
    /// The deadline before which no request may pass.
    pub closed spec fn deadline(&self) -> u64 {
        self.closed_until_ms
    }

    /// The valve lets a request pass at `now_ms` exactly when the deadline
    /// has been reached.
    pub open spec fn is_open(&self, now_ms: u64) -> bool {
        now_ms >= self.deadline()
    }

    /// A fresh valve is open at every instant.
    pub fn new() -> (valve: Self)
        ensures
            valve.deadline() == 0,
            forall|now_ms: u64| valve.is_open(now_ms),
    {
        Throttle { closed_until_ms: 0 }
    }

    /// The non-exclusive hold taken before every outgoing request: reports
    /// whether a request may be sent at `now_ms`. Any number of callers may
    /// pass concurrently; none passes while the valve is closed.
    pub fn acquire_nonexclusive(&self, now_ms: u64) -> (pass: bool)
        ensures
            pass == self.is_open(now_ms),
    {
        now_ms >= self.closed_until_ms
    }

    /// Closes the valve until `deadline_ms`. When several closers race, the
    /// latest deadline wins: the stored deadline never decreases.
    pub fn pause_until(&mut self, deadline_ms: u64)
        ensures
            final(self).deadline() == if deadline_ms > old(self).deadline() {
                deadline_ms
            } else {
                old(self).deadline()
            },
            final(self).deadline() >= old(self).deadline(),
            final(self).deadline() >= deadline_ms,
    {
        if deadline_ms > self.closed_until_ms {
            self.closed_until_ms = deadline_ms;
        }
    }

    /// The exclusive hold taken after a rate-limit signal: closes the valve
    /// for `wait_ms` from `now_ms` and returns the deadline the caller must
    /// sleep until (saturating at the largest representable instant).
    pub fn close_and_wait(&mut self, now_ms: u64, wait_ms: u64) -> (deadline_ms: u64)
        ensures
            deadline_ms == if now_ms + wait_ms <= u64::MAX { now_ms + wait_ms } else { u64::MAX as int },
            final(self).deadline() == if deadline_ms > old(self).deadline() {
                deadline_ms
            } else {
                old(self).deadline()
            },
            final(self).deadline() >= deadline_ms,
            final(self).deadline() >= old(self).deadline(),
            forall|t: u64| t < deadline_ms ==> !final(self).is_open(t),
    {
        let deadline_ms = match now_ms.checked_add(wait_ms) {
            Some(d) => d,
            None => u64::MAX,
        };
        self.pause_until(deadline_ms);
        deadline_ms
    }
}

/// Law (throttle exclusivity): while a close-and-wait sleep is in progress —
/// the valve was closed until `deadline_ms` and that instant has not yet been
/// reached — a concurrent non-exclusive acquire does not pass; once the
/// deadline has passed, and no later closure intervened, it does.
pub proof fn lemma_throttle_exclusivity(valve: Throttle, deadline_ms: u64, now_ms: u64)
    requires
        valve.deadline() >= deadline_ms,
    ensures
        now_ms < deadline_ms ==> !valve.is_open(now_ms),
        valve.deadline() == deadline_ms && now_ms >= deadline_ms ==> valve.is_open(now_ms),
{
}

} // verus!
