//! The pace of a file: each frame is held back for a fixed delay before it is handed on.

use vstd::prelude::*;

verus! {

/// Where the pacer stands.
#[derive(Debug, Clone, Copy, PartialEq, Eq, Structural)]
pub enum PacerState {
    /// It waits for the next item of the chunker.
    Pulling,
    /// It holds an item and waits for the delay to pass.
    Waiting,
    /// It waits for the item to be taken.
    Sending,
    /// It has ended.
    Finished,
}

/// What happened since the pacer last said what to do.
pub enum PacerEvent<T> {
    /// The chunker gave an item: a frame, or an error in place of one.
    Item(T),
    /// The chunker has ended.
    SourceEnded,
    /// The delay has passed.
    Slept,
    /// The item was taken.
    Sent,
    /// Nobody is left to take items.
    ConsumerClosed,
}

/// What the pacer wants done next.
#[derive(Debug, Clone, PartialEq, Eq)]
pub enum PacerAction<T> {
    /// Ask the chunker for its next item.
    Pull,
    /// Wait for the delay of the pacer.
    Sleep,
    /// Hand this item on.
    Send(T),
    /// Nothing more: the pacer ends.
    Stop,
}

/// Hands the items of a chunker on, each after a wait of the same delay.
pub struct FilePacer<T, D> {
    state: PacerState,
    delay: D,
    held: Option<T>,
    waited: Ghost<nat>,
    sent: Ghost<Seq<T>>,
}

impl<T, D> FilePacer<T, D> {
    /// Where the pacer stands.
    pub closed spec fn state(&self) -> PacerState {
        self.state
    }

    /// The delay before each item.
    pub closed spec fn pause(&self) -> D {
        self.delay
    }

    /// The item that is held back, if one is.
    pub closed spec fn held(&self) -> Option<T> {
        self.held
    }

    /// How many waits have passed in full.
    pub closed spec fn waited(&self) -> nat {
        self.waited@
    }

    /// The items that were handed on, in order.
    pub closed spec fn sent(&self) -> Seq<T> {
        self.sent@
    }

    /// What holds of every pacer: it holds an item exactly while it waits, and every
    /// item that it handed on was held back for one full wait of its own.
    #[verifier::type_invariant]
    pub closed spec fn inv(&self) -> bool {
        &&& self.held is Some <==> self.state == PacerState::Waiting
        &&& self.waited@ == self.sent@.len()
    }

    /// A pacer with the given delay, about to ask for the first item.
    pub fn new(delay: D) -> (r: Self)
        ensures
            r.inv(),
            r.state() == PacerState::Pulling,
            r.pause() == delay,
            r.held() is None,
            r.waited() == 0,
            r.sent() == Seq::<T>::empty(),
    {
        FilePacer {
            state: PacerState::Pulling,
            delay,
            held: None,
            waited: Ghost(0),
            sent: Ghost(Seq::empty()),
        }
    }

    /// The delay before each item.
    pub fn delay(&self) -> (r: &D)
        ensures
            *r == self.pause(),
    {
        &self.delay
    }

    /// Where the pacer stands.
    pub fn current(&self) -> (r: PacerState)
        ensures
            r == self.state(),
    {
        self.state
    }

    /// Takes an event and says what to do next: the pacer after the event, and the
    /// action. Gives `None` for the action, and the pacer as it was, where the event is
    /// not one that the pacer waits for.
    ///
    /// An item of the chunker is held back and a wait begins. When the wait has
    /// passed, the item is handed on. When it was taken, the next item is asked for.
    /// The pacer ends when the chunker has ended and when nobody is left to take items.
    pub fn step(self, event: PacerEvent<T>) -> (r: (Self, Option<PacerAction<T>>))
        ensures
            r.0.inv(),
            r.0.pause() == self.pause(),
            match (self.state(), event) {
                (PacerState::Pulling, PacerEvent::Item(item)) => {
                    &&& r.1 == Some(PacerAction::<T>::Sleep)
                    &&& r.0.state() == PacerState::Waiting
                    &&& r.0.held() == Some(item)
                    &&& r.0.waited() == self.waited()
                    &&& r.0.sent() == self.sent()
                },
                (PacerState::Pulling, PacerEvent::SourceEnded) => {
                    &&& r.1 == Some(PacerAction::<T>::Stop)
                    &&& r.0.state() == PacerState::Finished
                    &&& r.0.held() is None
                    &&& r.0.waited() == self.waited()
                    &&& r.0.sent() == self.sent()
                },
                (PacerState::Waiting, PacerEvent::Slept) => {
                    &&& self.held() matches Some(item)
                    &&& r.1 == Some(PacerAction::Send(item))
                    &&& r.0.state() == PacerState::Sending
                    &&& r.0.held() is None
                    &&& r.0.waited() == self.waited() + 1
                    &&& r.0.sent() == self.sent().push(item)
                },
                (PacerState::Sending, PacerEvent::Sent) => {
                    &&& r.1 == Some(PacerAction::<T>::Pull)
                    &&& r.0.state() == PacerState::Pulling
                    &&& r.0.held() is None
                    &&& r.0.waited() == self.waited()
                    &&& r.0.sent() == self.sent()
                },
                (PacerState::Sending, PacerEvent::ConsumerClosed) => {
                    &&& r.1 == Some(PacerAction::<T>::Stop)
                    &&& r.0.state() == PacerState::Finished
                    &&& r.0.held() is None
                    &&& r.0.waited() == self.waited()
                    &&& r.0.sent() == self.sent()
                },
                _ => r.1 is None && r.0 == self,
            },
    {
        proof {
            use_type_invariant(&self);
        }
        let FilePacer { state, delay, held, waited, sent } = self;
        match (state, event, held) {
            (PacerState::Pulling, PacerEvent::Item(item), _) => (
                FilePacer { state: PacerState::Waiting, delay, held: Some(item), waited, sent },
                Some(PacerAction::Sleep),
            ),
            (PacerState::Pulling, PacerEvent::SourceEnded, _)
            | (PacerState::Sending, PacerEvent::ConsumerClosed, _) => (
                FilePacer { state: PacerState::Finished, delay, held: None, waited, sent },
                Some(PacerAction::Stop),
            ),
            (PacerState::Waiting, PacerEvent::Slept, Some(item)) => (
                FilePacer {
                    state: PacerState::Sending,
                    delay,
                    held: None,
                    waited: Ghost(waited@ + 1),
                    sent: Ghost(sent@.push(item)),
                },
                Some(PacerAction::Send(item)),
            ),
            (PacerState::Sending, PacerEvent::Sent, _) => (
                FilePacer { state: PacerState::Pulling, delay, held: None, waited, sent },
                Some(PacerAction::Pull),
            ),
            (state, _, held) => (FilePacer { state, delay, held, waited, sent }, None),
        }
    }
}

/// Every item that was handed on has waited: as many waits have passed in full as
/// items were handed on, and an item is held back only while its wait lasts.
pub proof fn lemma_each_item_waits<T, D>(pacer: FilePacer<T, D>)
    requires
        pacer.inv(),
    ensures
        pacer.waited() == pacer.sent().len(),
        pacer.held() is Some <==> pacer.state() == PacerState::Waiting,
{
}

} // verus!
