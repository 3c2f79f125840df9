//! The course of a session, from the handshake to its end.

use vstd::prelude::*;

verus! {

/// Where a session stands.
#[derive(Debug, Clone, Copy, PartialEq, Eq, Structural)]
pub enum SessionState {
    /// The handshake is under way. No duty runs yet.
    Connecting,
    /// The connection is open and the duties run.
    Open,
    /// No more audio is sent; results may still come in.
    Draining,
    /// The receiver has ended, and the session with it.
    Closed,
    /// The handshake failed. No duty ever ran.
    Failed,
}

/// What happened to a session.
#[derive(Debug, Clone, Copy, PartialEq, Eq, Structural)]
pub enum SessionEvent {
    /// The handshake succeeded.
    Connected,
    /// The handshake failed.
    ConnectFailed,
    /// The sender has turned to draining.
    SenderDraining,
    /// The receiver has ended.
    ReceiverEnded,
}

/// What is to be done about a session after an event.
#[derive(Debug, Clone, Copy, PartialEq, Eq, Structural)]
pub enum SessionAction {
    /// Start the sender and the receiver, and the keep-alive duty where `keep_alive`
    /// is set.
    StartDuties { keep_alive: bool },
    /// Report the failure of the connection to the caller. No duty is started.
    ReportFailure,
    /// Let the duties go on.
    Continue,
    /// The session is over: cancel the duties that still run.
    CancelDuties,
}

/// The state after an event and the action then, or `None` where the event cannot
/// happen in the state.
pub open spec fn session_next(state: SessionState, keep_alive: bool, event: SessionEvent) -> Option<
    (SessionState, SessionAction),
> {
    match (state, event) {
        (SessionState::Connecting, SessionEvent::Connected) => Some(
            (SessionState::Open, SessionAction::StartDuties { keep_alive }),
        ),
        (SessionState::Connecting, SessionEvent::ConnectFailed) => Some(
            (SessionState::Failed, SessionAction::ReportFailure),
        ),
        (SessionState::Open, SessionEvent::SenderDraining) => Some(
            (SessionState::Draining, SessionAction::Continue),
        ),
        (SessionState::Open, SessionEvent::ReceiverEnded) => Some(
            (SessionState::Closed, SessionAction::CancelDuties),
        ),
        (SessionState::Draining, SessionEvent::ReceiverEnded) => Some(
            (SessionState::Closed, SessionAction::CancelDuties),
        ),
        _ => None,
    }
}

/// A session: where it stands, and whether it keeps its connection alive.
#[derive(Debug, Clone, Copy, PartialEq, Eq)]
pub struct Session {
    state: SessionState,
    keep_alive: bool,
}

impl Session {
    /// Where the session stands.
    pub closed spec fn state(&self) -> SessionState {
        self.state
    }

    /// Whether the session keeps its connection alive.
    pub closed spec fn keeps_alive(&self) -> bool {
        self.keep_alive
    }

    /// A session whose handshake is under way.
    pub fn new(keep_alive: bool) -> (r: Self)
        ensures
            r.state() == SessionState::Connecting,
            r.keeps_alive() == keep_alive,
    {
        Session { state: SessionState::Connecting, keep_alive }
    }

    /// Where the session stands.
    pub fn current(&self) -> (r: SessionState)
        ensures
            r == self.state(),
    {
        self.state
    }

    /// Takes an event and says what to do about it. Gives `None`, and changes nothing,
    /// where the event cannot happen in the state of the session: see [`session_next`].
    pub fn step(&mut self, event: SessionEvent) -> (r: Option<SessionAction>)
        ensures
            final(self).keeps_alive() == old(self).keeps_alive(),
            match session_next(old(self).state(), old(self).keeps_alive(), event) {
                Some((state, action)) => r == Some(action) && final(self).state() == state,
                None => r is None && final(self).state() == old(self).state(),
            },
    {
        match (self.state, event) {
            (SessionState::Connecting, SessionEvent::Connected) => {
                self.state = SessionState::Open;
                Some(SessionAction::StartDuties { keep_alive: self.keep_alive })
            },
            (SessionState::Connecting, SessionEvent::ConnectFailed) => {
                self.state = SessionState::Failed;
                Some(SessionAction::ReportFailure)
            },
            (SessionState::Open, SessionEvent::SenderDraining) => {
                self.state = SessionState::Draining;
                Some(SessionAction::Continue)
            },
            (SessionState::Open, SessionEvent::ReceiverEnded)
            | (SessionState::Draining, SessionEvent::ReceiverEnded) => {
                self.state = SessionState::Closed;
                Some(SessionAction::CancelDuties)
            },
            _ => None,
        }
    }
}

/// Duties are started by one step only, the one out of the handshake into the open
/// session, and so never after a failed handshake. A closed and a failed session
/// take no event. Only the end of the receiver closes a session.
pub proof fn lemma_session_steps(state: SessionState, keep_alive: bool, event: SessionEvent)
    ensures
        session_next(state, keep_alive, event) matches Some((next, action)) ==> {
            &&& action is StartDuties <==> state == SessionState::Connecting && next
                == SessionState::Open
            &&& next == SessionState::Failed <==> state == SessionState::Connecting && event
                == SessionEvent::ConnectFailed
            &&& next == SessionState::Closed <==> event == SessionEvent::ReceiverEnded
            &&& next != SessionState::Connecting
        },
        session_next(SessionState::Closed, keep_alive, event) is None,
        session_next(SessionState::Failed, keep_alive, event) is None,
{
}

} // verus!
