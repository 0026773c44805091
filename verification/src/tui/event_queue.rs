//! Internal queue of user-level events. The front end pushes events from
//! callbacks and polls them back off one at a time; the newest event is
//! served first, matching the poll order of the event loop it feeds.

use vstd::prelude::*;

use crate::configuration::Deployment;
use crate::models::environment::Environment;

verus! {

/// Severity attached to a report shown in the status line.
#[derive(Debug, Clone, Copy, PartialEq, Eq, Structural)]
pub enum ReportLevel {
    Error,
    Warn,
    Info,
    Debug,
    Trace,
}

/// A message for the status-line reporter, with its severity.
#[derive(Debug, Clone)]
pub struct ReportMessage {
    pub message: String,
    pub level: ReportLevel,
}

/// An event raised by one part of the interface for another to consume.
#[derive(Debug, Clone)]
pub enum UserEvent {
    SetCurrentDeployment(Deployment),
    SetCurrentOrganization(String),
    SetCurrentEnvironment(Environment),
    UpdateReporter(ReportMessage),
    ModalChanged(bool),
}

/// The queue itself: pushed events wait here until the event loop polls
/// them back off.
#[derive(Debug, Clone)]
pub struct InternalEventQueue {
    events: Vec<UserEvent>,
}

impl InternalEventQueue {
    /// The queued events, oldest first.
    pub closed spec fn view(self) -> Seq<UserEvent> {
        self.events@
    }

    /// An empty queue.
    pub fn new() -> (q: Self)
        ensures
            q@ == Seq::<UserEvent>::empty(),
    {
        Self { events: Vec::new() }
    }

    /// Append an event to the queue.
    pub fn push(&mut self, event: UserEvent)
        ensures
            final(self)@ == old(self)@.push(event),
    {
        self.events.push(event);
    }

    /// Take the most recently pushed event off the queue, if any.
    pub fn poll(&mut self) -> (r: Option<UserEvent>)
        ensures
            old(self)@.len() == 0 ==> r is None && final(self)@ == old(self)@,
            old(self)@.len() > 0 ==> final(self)@ == old(self)@.drop_last() && (match r {
                Some(e) => e == old(self)@.last(),
                None => false,
            }),
    {
        if self.events.len() == 0 {
            None
        } else {
            self.events.pop()
        }
    }
}

} // verus!
