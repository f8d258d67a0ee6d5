//! A driver session as the event callback sees it: the registry that the
//! events build up, and the signal that tells the starting thread when a
//! milestone is reached.

use vstd::prelude::*;
use crate::notification::Notification;
use crate::notification::NotificationType;
use crate::registry::effect;
use crate::registry::Records;
use crate::registry::Registry;
use crate::registry::RegistryError;
use crate::synchronizer::after_notify;
use crate::synchronizer::after_wait;
use crate::synchronizer::wait_outcome;
use crate::synchronizer::Synchronizer;
use crate::synchronizer::WaitOutcome;

verus! {

/// Whether an event is one that the starting thread waits for: the driver
/// is ready, or all queries of the watched device are done.
pub open spec fn is_milestone(event: Notification, watched_node: u8) -> bool {
    event.notification_type == NotificationType::DriverReady || (event.notification_type
        == NotificationType::NodeQueriesComplete && event.node_id == watched_node)
}

/// The state of one driver session.
#[derive(Debug)]
pub struct Session {
    registry: Registry,
    signal: Synchronizer,
    watched_node: u8,
}

impl Session {
    /// The devices that the session knows, with their values.
    pub closed spec fn records(&self) -> Records {
        self.registry@
    }

    /// Whether a milestone was reached that no waiter has taken yet.
    pub closed spec fn pending(&self) -> bool {
        self.signal@
    }

    /// The device whose queries the starting thread waits for.
    pub closed spec fn watched(&self) -> u8 {
        self.watched_node
    }

    /// A session that knows no device and has reached no milestone.
    pub fn new(watched_node: u8) -> (s: Session)
        ensures
            s.records() == Map::<u8, crate::registry::Values>::empty(),
            !s.pending(),
            s.watched() == watched_node,
    {
        Session { registry: Registry::new(), signal: Synchronizer::new(), watched_node }
    }

    /// The registry that the events have built up.
    pub fn registry(&self) -> (r: &Registry)
        ensures
            r@ == self.records(),
    {
        &self.registry
    }

    /// Whether an event is one that the starting thread waits for.
    pub fn reaches_milestone(&self, event: &Notification) -> (r: bool)
        ensures
            r == is_milestone(*event, self.watched()),
    {
        match event.notification_type {
            NotificationType::DriverReady => true,
            NotificationType::NodeQueriesComplete => event.node_id == self.watched_node,
            _ => false,
        }
    }

    /// Takes one event: the registry takes it in, and the signal is sent if
    /// the event is a milestone. The result tells whether the signal was
    /// sent, so that the host can wake the waiter. Where the registry
    /// refuses the event, nothing changes.
    pub fn on_event(&mut self, event: &Notification) -> (r: Result<bool, RegistryError>)
        ensures
            final(self).watched() == old(self).watched(),
            match effect(old(self).records(), *event) {
                Ok(records) => {
                    &&& r == Ok::<bool, RegistryError>(is_milestone(*event, old(self).watched()))
                    &&& final(self).records() == records
                    &&& final(self).pending() == (if is_milestone(*event, old(self).watched()) {
                        after_notify(old(self).pending())
                    } else {
                        old(self).pending()
                    })
                },
                Err(e) => {
                    &&& r == Err::<bool, RegistryError>(e)
                    &&& final(self).records() == old(self).records()
                    &&& final(self).pending() == old(self).pending()
                },
            },
    {
        match self.registry.apply(event) {
            Ok(()) => {
                let reached = self.reaches_milestone(event);
                if reached {
                    self.signal.notify();
                }
                Ok(reached)
            },
            Err(e) => Err(e),
        }
    }

    /// Looks at the signal for the starting thread: takes it if it is
    /// pending, and tells the thread whether it may go on or has to sleep.
    pub fn wait_and_rearm(&mut self) -> (outcome: WaitOutcome)
        ensures
            outcome == wait_outcome(old(self).pending()),
            final(self).pending() == after_wait(old(self).pending()),
            final(self).records() == old(self).records(),
            final(self).watched() == old(self).watched(),
    {
        self.signal.wait_and_rearm()
    }
}

} // verus!
