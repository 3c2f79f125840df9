//! The duty that keeps the connection alive while audio is scarce.

use vstd::prelude::*;
use crate::text::owned;

verus! {

/// How many seconds pass between two keep-alive messages.
pub const KEEP_ALIVE_PERIOD_SECS: u64 = 10;

/// The text of a keep-alive message.
pub open spec fn keep_alive_text() -> Seq<char> {
    "{\"type\": \"KeepAlive\"}"@
}

/// The text of a keep-alive message.
pub fn keep_alive_message() -> (r: String)
    ensures
        r@ == keep_alive_text(),
{
    owned("{\"type\": \"KeepAlive\"}")
}

/// Where the keep-alive duty stands.
#[derive(Debug, Clone, Copy, PartialEq, Eq, Structural)]
pub enum KeepAliveState {
    /// It waits for the next tick of its timer.
    Waiting,
    /// It waits for its message to be written.
    Writing,
    /// It does nothing: it was not asked for, or it has stopped.
    Stopped,
}

/// What happened since the duty last said what to do.
#[derive(Debug, Clone, Copy, PartialEq, Eq, Structural)]
pub enum KeepAliveEvent {
    /// The timer ticked.
    Tick,
    /// The session was cancelled while the duty waited for its timer.
    Cancelled,
    /// The message was written.
    Written,
    /// The message could not be written.
    WriteFailed,
}

/// What the keep-alive duty wants done next.
#[derive(Debug, Clone, Copy, PartialEq, Eq, Structural)]
pub enum KeepAliveAction {
    /// Wait for the next tick of a timer with a period of
    /// [`KEEP_ALIVE_PERIOD_SECS`] seconds.
    Wait,
    /// Write the keep-alive message as one text frame, with the write side held for
    /// this duty alone.
    WriteMessage,
    /// Nothing more: the duty ends.
    Stop,
}

/// The state after an event and the action then, or `None` where the event is not one
/// that the duty waits for in its state.
///
/// At each tick the message is written. After a write the duty waits for the next
/// tick. It stops when a write fails and when the session is cancelled, and then it
/// stays stopped.
pub open spec fn keep_alive_next(state: KeepAliveState, event: KeepAliveEvent) -> Option<
    (KeepAliveState, KeepAliveAction),
> {
    match (state, event) {
        (KeepAliveState::Waiting, KeepAliveEvent::Tick) => Some(
            (KeepAliveState::Writing, KeepAliveAction::WriteMessage),
        ),
        (KeepAliveState::Waiting, KeepAliveEvent::Cancelled) => Some(
            (KeepAliveState::Stopped, KeepAliveAction::Stop),
        ),
        (KeepAliveState::Writing, KeepAliveEvent::Written) => Some(
            (KeepAliveState::Waiting, KeepAliveAction::Wait),
        ),
        (KeepAliveState::Writing, KeepAliveEvent::WriteFailed) => Some(
            (KeepAliveState::Stopped, KeepAliveAction::Stop),
        ),
        _ => None,
    }
}

/// The duty that keeps the connection alive.
#[derive(Debug, Clone, Copy, PartialEq, Eq)]
pub struct KeepAliveDuty {
    state: KeepAliveState,
}

impl KeepAliveDuty {
    /// Where the duty stands.
    pub closed spec fn state(&self) -> KeepAliveState {
        self.state
    }

    /// The duty at the start of a session, and what it wants done first: to wait for
    /// its timer where keeping alive was asked for, and nothing at all where it was not.
    pub fn new(enabled: bool) -> (r: (Self, KeepAliveAction))
        ensures
            r.0.state() == if enabled {
                KeepAliveState::Waiting
            } else {
                KeepAliveState::Stopped
            },
            r.1 == if enabled {
                KeepAliveAction::Wait
            } else {
                KeepAliveAction::Stop
            },
    {
        if enabled {
            (KeepAliveDuty { state: KeepAliveState::Waiting }, KeepAliveAction::Wait)
        } else {
            (KeepAliveDuty { state: KeepAliveState::Stopped }, KeepAliveAction::Stop)
        }
    }

    /// Where the duty stands.
    pub fn current(&self) -> (r: KeepAliveState)
        ensures
            r == self.state(),
    {
        self.state
    }

    /// Takes an event and says what to do next. Gives `None`, and changes nothing,
    /// where the event is not one that the duty waits for: see [`keep_alive_next`].
    pub fn step(&mut self, event: KeepAliveEvent) -> (r: Option<KeepAliveAction>)
        ensures
            match keep_alive_next(old(self).state(), event) {
                Some((state, action)) => r == Some(action) && final(self).state() == state,
                None => r is None && final(self).state() == old(self).state(),
            },
    {
        match (self.state, event) {
            (KeepAliveState::Waiting, KeepAliveEvent::Tick) => {
                self.state = KeepAliveState::Writing;
                Some(KeepAliveAction::WriteMessage)
            },
            (KeepAliveState::Writing, KeepAliveEvent::Written) => {
                self.state = KeepAliveState::Waiting;
                Some(KeepAliveAction::Wait)
            },
            (KeepAliveState::Waiting, KeepAliveEvent::Cancelled)
            | (KeepAliveState::Writing, KeepAliveEvent::WriteFailed) => {
                self.state = KeepAliveState::Stopped;
                Some(KeepAliveAction::Stop)
            },
            _ => None,
        }
    }
}

/// A failed write ends the keep-alive duty and nothing else; a duty that has stopped
/// or was never asked for takes no event and writes nothing.
pub proof fn lemma_keep_alive_stops(event: KeepAliveEvent)
    ensures
        keep_alive_next(KeepAliveState::Writing, KeepAliveEvent::WriteFailed) == Some(
            (KeepAliveState::Stopped, KeepAliveAction::Stop),
        ),
        keep_alive_next(KeepAliveState::Stopped, event) is None,
{
}

} // verus!
