//! The duty that receives the results and hands them to the caller, one at a time.

use vstd::prelude::*;

verus! {

/// A frame that came in, by its kind.
#[derive(Debug, Clone, PartialEq, Eq)]
pub enum Inbound {
    /// A text frame.
    Text(String),
    /// A binary frame.
    Binary(Vec<u8>),
    /// A ping.
    Ping(Vec<u8>),
    /// A pong.
    Pong(Vec<u8>),
    /// A close frame.
    Close,
    /// A frame of any other kind.
    Other,
}

/// Where the receiver stands.
#[derive(Debug, Clone, Copy, PartialEq, Eq, Structural)]
pub enum ReceiverState {
    /// It waits for the next frame of the connection.
    Reading,
    /// It waits for the caller to take the result that it handed on.
    Delivering,
    /// It has ended, and the session with it.
    Closed,
}

/// What happened since the receiver last said what to do.
pub enum ReceiverEvent {
    /// A frame came in.
    Message(Inbound),
    /// Reading gave an error.
    ReadFailed,
    /// The connection has ended.
    ReadEnded,
    /// The caller's channel has taken the result.
    Delivered,
    /// The caller has let go of its end of the channel.
    ConsumerClosed,
}

/// What the receiver wants done next.
#[derive(Debug, Clone, PartialEq, Eq)]
pub enum ReceiverAction {
    /// Read the next frame of the connection.
    Read,
    /// Parse this text as a result and put what comes of it, the result or the error
    /// of parsing, into the caller's channel.
    Deliver(String),
    /// Nothing more: the duty ends.
    Stop,
}

/// What a [`ReceiverAction`] holds.
pub enum ReceiverActionView {
    Read,
    Deliver(Seq<char>),
    Stop,
}

impl View for ReceiverAction {
    type V = ReceiverActionView;

    open spec fn view(&self) -> ReceiverActionView {
        match self {
            ReceiverAction::Read => ReceiverActionView::Read,
            ReceiverAction::Deliver(text) => ReceiverActionView::Deliver(text@),
            ReceiverAction::Stop => ReceiverActionView::Stop,
        }
    }
}

/// The state after an event and the action then, or `None` where the event is not one
/// that the receiver waits for in its state.
///
/// The text of a text frame is handed on, and nothing is read until the caller has
/// taken it. A frame of any other kind is dropped and the next one is read. The
/// receiver ends when the connection ends, when reading fails, and when the caller
/// has let go of its channel.
pub open spec fn receiver_next(state: ReceiverState, event: ReceiverEvent) -> Option<
    (ReceiverState, ReceiverActionView),
> {
    match (state, event) {
        (ReceiverState::Reading, ReceiverEvent::Message(Inbound::Text(text))) => Some(
            (ReceiverState::Delivering, ReceiverActionView::Deliver(text@)),
        ),
        (ReceiverState::Reading, ReceiverEvent::Message(_)) => Some(
            (ReceiverState::Reading, ReceiverActionView::Read),
        ),
        (ReceiverState::Reading, ReceiverEvent::ReadFailed) => Some(
            (ReceiverState::Closed, ReceiverActionView::Stop),
        ),
        (ReceiverState::Reading, ReceiverEvent::ReadEnded) => Some(
            (ReceiverState::Closed, ReceiverActionView::Stop),
        ),
        (ReceiverState::Delivering, ReceiverEvent::Delivered) => Some(
            (ReceiverState::Reading, ReceiverActionView::Read),
        ),
        (ReceiverState::Delivering, ReceiverEvent::ConsumerClosed) => Some(
            (ReceiverState::Closed, ReceiverActionView::Stop),
        ),
        _ => None,
    }
}

/// The texts handed on so far, with that of one more action.
pub open spec fn with_handed(texts: Seq<Seq<char>>, action: ReceiverActionView) -> Seq<Seq<char>> {
    match action {
        ReceiverActionView::Deliver(text) => texts.push(text),
        _ => texts,
    }
}

/// The number of results taken so far, with that of one more event.
pub open spec fn with_taken(taken: nat, state: ReceiverState, event: ReceiverEvent) -> nat {
    if state == ReceiverState::Delivering && event is Delivered {
        taken + 1
    } else {
        taken
    }
}

/// The duty that receives the results. It keeps account of the texts that it handed
/// on and of how many of them the caller's channel has taken.
pub struct ReceiverDuty {
    state: ReceiverState,
    handed: Ghost<Seq<Seq<char>>>,
    taken: Ghost<nat>,
}

impl ReceiverDuty {
    /// Where the receiver stands.
    pub closed spec fn state(&self) -> ReceiverState {
        self.state
    }

    /// The texts that were handed on for the caller, in the order in which their
    /// frames came in.
    pub closed spec fn handed(&self) -> Seq<Seq<char>> {
        self.handed@
    }

    /// How many of them the caller's channel has taken.
    pub closed spec fn taken(&self) -> nat {
        self.taken@
    }

    /// How many results were handed on and not taken yet.
    pub open spec fn undelivered(&self) -> int {
        self.handed().len() - self.taken()
    }

    /// What holds of every receiver: while it reads, every result that it handed on
    /// has been taken; while it delivers, exactly one has not; and when it has ended,
    /// at most one has not.
    #[verifier::type_invariant]
    pub closed spec fn inv(&self) -> bool {
        match self.state {
            ReceiverState::Reading => self.handed@.len() == self.taken@,
            ReceiverState::Delivering => self.handed@.len() == self.taken@ + 1,
            ReceiverState::Closed => self.taken@ <= self.handed@.len() <= self.taken@ + 1,
        }
    }

    /// A receiver that is about to read the first frame.
    pub fn new() -> (r: Self)
        ensures
            r.inv(),
            r.state() == ReceiverState::Reading,
            r.handed() == Seq::<Seq<char>>::empty(),
            r.taken() == 0,
    {
        ReceiverDuty { state: ReceiverState::Reading, handed: Ghost(Seq::empty()), taken: Ghost(0) }
    }

    /// Where the receiver stands.
    pub fn current(&self) -> (r: ReceiverState)
        ensures
            r == self.state(),
    {
        self.state
    }

    /// Takes an event and says what to do next. Gives `None`, and changes nothing,
    /// where the event is not one that the receiver waits for: see [`receiver_next`].
    pub fn step(&mut self, event: ReceiverEvent) -> (r: Option<ReceiverAction>)
        ensures
            final(self).inv(),
            match receiver_next(old(self).state(), event) {
                Some((state, action)) => {
                    &&& r matches Some(a) && a@ == action
                    &&& final(self).state() == state
                    &&& final(self).handed() == with_handed(old(self).handed(), action)
                    &&& final(self).taken() == with_taken(
                        old(self).taken(),
                        old(self).state(),
                        event,
                    )
                },
                None => {
                    &&& r is None
                    &&& final(self).state() == old(self).state()
                    &&& final(self).handed() == old(self).handed()
                    &&& final(self).taken() == old(self).taken()
                },
            },
    {
        proof {
            use_type_invariant(&*self);
        }
        match (self.state, event) {
            (ReceiverState::Reading, ReceiverEvent::Message(Inbound::Text(text))) => {
                *self = ReceiverDuty {
                    state: ReceiverState::Delivering,
                    handed: Ghost(self.handed@.push(text@)),
                    taken: self.taken,
                };
                Some(ReceiverAction::Deliver(text))
            },
            (ReceiverState::Reading, ReceiverEvent::Message(_)) => Some(ReceiverAction::Read),
            (ReceiverState::Reading, ReceiverEvent::ReadFailed)
            | (ReceiverState::Reading, ReceiverEvent::ReadEnded)
            | (ReceiverState::Delivering, ReceiverEvent::ConsumerClosed) => {
                *self = ReceiverDuty {
                    state: ReceiverState::Closed,
                    handed: self.handed,
                    taken: self.taken,
                };
                Some(ReceiverAction::Stop)
            },
            (ReceiverState::Delivering, ReceiverEvent::Delivered) => {
                *self = ReceiverDuty {
                    state: ReceiverState::Reading,
                    handed: self.handed,
                    taken: Ghost(self.taken@ + 1),
                };
                Some(ReceiverAction::Read)
            },
            _ => None,
        }
    }
}

/// At no time is more than one result handed on and not yet taken; while one is, the
/// receiver does not read.
pub proof fn lemma_one_undelivered(duty: ReceiverDuty)
    requires
        duty.inv(),
    ensures
        0 <= duty.undelivered() <= 1,
        duty.state() == ReceiverState::Reading ==> duty.undelivered() == 0,
        duty.state() == ReceiverState::Delivering ==> duty.undelivered() == 1,
{
}

/// The receiver asks for a read only in steps that leave it reading, and so with
/// nothing undelivered. It hands a text on only for a text frame, and then it is that
/// frame's own text: results reach the caller in the order in which they came in.
/// A frame of another kind changes nothing. A receiver that has ended takes no event.
pub proof fn lemma_receiver_steps(state: ReceiverState, event: ReceiverEvent)
    ensures
        receiver_next(state, event) matches Some((next, action)) ==> {
            &&& action is Read ==> next == ReceiverState::Reading
            &&& action is Deliver ==> next == ReceiverState::Delivering && state
                == ReceiverState::Reading && (event matches ReceiverEvent::Message(
                Inbound::Text(text),
            ) && action == ReceiverActionView::Deliver(text@))
            &&& action is Stop <==> next == ReceiverState::Closed
        },
        event matches ReceiverEvent::Message(frame) && !(frame is Text) ==> receiver_next(
            ReceiverState::Reading,
            event,
        ) == Some((ReceiverState::Reading, ReceiverActionView::Read)),
        receiver_next(ReceiverState::Closed, event) is None,
{
}

} // verus!
