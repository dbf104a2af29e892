//! The hand-off between the child-termination signal handler and the reaper
//! task: a count of deliveries plus at most one pending waiter.
//!
//! The handler side must stay minimal — an increment and a wake, both
//! infallible and non-blocking — because it runs in the restricted
//! signal-handling context. All process inspection is deferred to the
//! reaper, which treats every wake as "at least one descendant exited" and
//! drains exhaustively, since the operating system coalesces rapid repeated
//! signals rather than queueing them.

use vstd::prelude::*;

verus! {

/// The shared state of the hand-off: how many termination notifications
/// have been recorded but not yet consumed, and whether the consumer is
/// currently suspended waiting for one.
///
/// A single producer (the signal handler) calls [`ExitEvents::record`]; a
/// single consumer (the reaper task) calls [`ExitEvents::poll_wait`]. The
/// check for a pending notification and the registration as waiter are one
/// step, so an increment arriving after the consumer found the count zero
/// still sees the registered waiter and reports that it must be woken: the
/// wake-up is never lost.
pub struct ExitEvents {
    /// Notifications recorded and not yet consumed. Deliveries beyond the
    /// representable maximum saturate; the consumer never trusts this as an
    /// exact delivery count and always drains exhaustively.
    pub pending: u64,
    /// Whether the consumer is suspended waiting for the next notification.
    pub waiter: bool,
}

impl ExitEvents {
    /// A fresh hand-off: nothing recorded, nobody waiting.
    pub fn new() -> (e: ExitEvents)
        ensures
            e.pending == 0,
            !e.waiter,
    {
        ExitEvents { pending: 0, waiter: false }
    }

    /// The signal handler's whole work: record one delivery and report
    /// whether a suspended consumer must be woken. The waiter slot is
    /// cleared on wake. Infallible and non-blocking by construction.
    pub fn record(&mut self) -> (wake: bool)
        ensures
            final(self).pending == if old(self).pending < u64::MAX {
                old(self).pending + 1
            } else {
                old(self).pending as int
            },
            !final(self).waiter,
            wake == old(self).waiter,
    {
        if self.pending < u64::MAX {
            self.pending = self.pending + 1;
        }
        let wake = self.waiter;
        self.waiter = false;
        wake
    }

    /// The consumer's side of `next_event`: if a notification is pending,
    /// consume it and resume at once; otherwise register as the waiter in
    /// the same step, so that a concurrent [`ExitEvents::record`] cannot
    /// slip between the check and the registration.
    pub fn poll_wait(&mut self) -> (ready: bool)
        ensures
            ready == (old(self).pending > 0),
            old(self).pending > 0 ==> final(self).pending == old(self).pending - 1
                && final(self).waiter == old(self).waiter,
            old(self).pending == 0 ==> final(self).pending == 0 && final(self).waiter,
    {
        if self.pending > 0 {
            self.pending = self.pending - 1;
            true
        } else {
            self.waiter = true;
            false
        }
    }
}

} // verus!
