//! The background refresh producer as a state machine: the task that runs it
//! performs each action and reports the outcome as the next event.
//!
//! The producer fetches journeys, sends the batch into a bounded channel,
//! sleeps for the refresh interval and starts again. It stops only when the
//! channel's receiver is gone. A failed fetch skips that round's send and
//! sleeps as usual, so one transient error does not stop updates.
use vstd::prelude::*;
use crate::journey::Journey;

verus! {

/// Capacity of the channel that carries journey batches to the interface.
pub const CHANNEL_CAPACITY: usize = 5;

/// Seconds between the end of one round and the next fetch.
pub const REFRESH_INTERVAL_SECS: u64 = 30;

/// What the producer is waiting for.
#[derive(Clone, Copy, Debug, PartialEq, Eq, Structural)]
pub enum Phase {
    Fetching,
    Sending,
    Sleeping,
    Stopped,
}

/// Outcome of the last action, handed back to the producer.
pub enum RefreshEvent {
    FetchSucceeded(Vec<Journey>),
    FetchFailed,
    Sent,
    SendFailed,
    Slept,
}

/// What the task runs next.
pub enum RefreshAction {
    Fetch,
    Send(Vec<Journey>),
    Sleep(u64),
    Stop,
}

/// A producer bound to the origin and destination captured when it started.
pub struct RefreshProducer {
    pub phase: Phase,
    pub start_id: String,
    pub destination_id: String,
}

/// The phase after `event` in phase `p`. An event that does not answer the
/// pending action stops the producer.
pub open spec fn next_phase(p: Phase, event: RefreshEvent) -> Phase {
    match (p, event) {
        (Phase::Fetching, RefreshEvent::FetchSucceeded(_)) => Phase::Sending,
        (Phase::Fetching, RefreshEvent::FetchFailed) => Phase::Sleeping,
        (Phase::Sending, RefreshEvent::Sent) => Phase::Sleeping,
        (Phase::Sleeping, RefreshEvent::Slept) => Phase::Fetching,
        _ => Phase::Stopped,
    }
}

/// Whether `a` is the action that leads from phase `p` into phase `next`
/// after `event`: a fetched batch is sent as it came.
pub open spec fn action_for(p: Phase, event: RefreshEvent, next: Phase, a: RefreshAction) -> bool {
    match next {
        Phase::Fetching => a is Fetch,
        Phase::Sending => a matches RefreshAction::Send(b) && event matches RefreshEvent::FetchSucceeded(
            f,
        ) && b@ == f@,
        Phase::Sleeping => a == RefreshAction::Sleep(REFRESH_INTERVAL_SECS),
        Phase::Stopped => a is Stop,
    }
}

impl RefreshProducer {
    /// A producer for the given origin and destination; its first action is
    /// a fetch.
    pub fn new(start_id: String, destination_id: String) -> (r: (RefreshProducer, RefreshAction))
        ensures
            r.0.phase == Phase::Fetching,
            r.0.start_id == start_id,
            r.0.destination_id == destination_id,
            r.1 is Fetch,
    {
        (RefreshProducer { phase: Phase::Fetching, start_id, destination_id }, RefreshAction::Fetch)
    }

    /// Advances on the outcome of the last action and returns the next one.
    pub fn step(&mut self, event: RefreshEvent) -> (r: RefreshAction)
        ensures
            final(self).phase == next_phase(old(self).phase, event),
            final(self).start_id == old(self).start_id,
            final(self).destination_id == old(self).destination_id,
            action_for(old(self).phase, event, final(self).phase, r),
    {
        match (self.phase, event) {
            (Phase::Fetching, RefreshEvent::FetchSucceeded(batch)) => {
                self.phase = Phase::Sending;
                RefreshAction::Send(batch)
            },
            (Phase::Fetching, RefreshEvent::FetchFailed) => {
                self.phase = Phase::Sleeping;
                RefreshAction::Sleep(REFRESH_INTERVAL_SECS)
            },
            (Phase::Sending, RefreshEvent::Sent) => {
                self.phase = Phase::Sleeping;
                RefreshAction::Sleep(REFRESH_INTERVAL_SECS)
            },
            (Phase::Sleeping, RefreshEvent::Slept) => {
                self.phase = Phase::Fetching;
                RefreshAction::Fetch
            },
            _ => {
                self.phase = Phase::Stopped;
                RefreshAction::Stop
            },
        }
    }
}

} // verus!
