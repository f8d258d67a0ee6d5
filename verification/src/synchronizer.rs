//! The rendezvous between the thread that starts a session and the thread
//! that delivers the driver's events.
//!
//! The signal is binary: it is pending or it is not. Signalling makes it
//! pending; a waiter that finds it pending takes it and goes on, and one
//! that does not has to sleep until it is signalled. The sleeping itself is
//! the host's business: this module decides who may go on.

use vstd::prelude::*;

verus! {

/// What a waiter learns when it looks at the signal.
#[derive(Clone, Copy, Debug, PartialEq, Eq, Structural)]
pub enum WaitOutcome {
    /// The signal was pending; it has been taken and the waiter goes on.
    Released,
    /// No signal was pending; the waiter has to sleep until it is notified.
    Blocked,
}

/// Whether a signal is pending after one more was sent.
pub open spec fn after_notify(pending: bool) -> bool {
    true
}

/// What a waiter is told that looks at the signal.
pub open spec fn wait_outcome(pending: bool) -> WaitOutcome {
    if pending {
        WaitOutcome::Released
    } else {
        WaitOutcome::Blocked
    }
}

/// Whether a signal is pending after a waiter looked at it.
pub open spec fn after_wait(pending: bool) -> bool {
    false
}

/// A waiter that comes before any signal has to sleep. A signal releases
/// the next waiter and no second one: the waiter after that sleeps again
/// until there is a new signal, also where more than one signal was sent
/// before the first waiter came.
pub proof fn lemma_one_signal_releases_one_waiter(pending: bool)
    ensures
        wait_outcome(false) == WaitOutcome::Blocked,
        wait_outcome(after_notify(pending)) == WaitOutcome::Released,
        wait_outcome(after_wait(after_notify(pending))) == WaitOutcome::Blocked,
        wait_outcome(after_wait(after_notify(after_notify(pending)))) == WaitOutcome::Blocked,
{
}

/// A binary signal for one signaller and one waiter.
#[derive(Clone, Copy, Debug)]
pub struct Synchronizer {
    pending: bool,
}

impl View for Synchronizer {
    type V = bool;

    /// Whether a signal is pending.
    closed spec fn view(&self) -> bool {
        self.pending
    }
}

impl Synchronizer {
    /// A synchronizer with no signal pending.
    pub fn new() -> (s: Synchronizer)
        ensures
            s@ == false,
    {
        Synchronizer { pending: false }
    }

    /// Whether a signal is pending.
    pub fn is_set(&self) -> (pending: bool)
        ensures
            pending == self@,
    {
        self.pending
    }

    /// Sends a signal. The host then wakes one sleeping waiter.
    pub fn notify(&mut self)
        ensures
            final(self)@ == after_notify(old(self)@),
    {
        self.pending = true;
    }

    /// Looks at the signal for a waiter: takes it if it is pending, so that
    /// the next waiter needs a new one, and tells the waiter whether it may
    /// go on.
    pub fn wait_and_rearm(&mut self) -> (outcome: WaitOutcome)
        ensures
            outcome == wait_outcome(old(self)@),
            final(self)@ == after_wait(old(self)@),
    {
        if self.pending {
            self.pending = false;
            WaitOutcome::Released
        } else {
            WaitOutcome::Blocked
        }
    }
}

} // verus!
