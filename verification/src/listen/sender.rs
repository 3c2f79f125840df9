//! The duty that sends the audio: frame after frame, then one empty frame.

use vstd::prelude::*;
use bytes::Bytes;
use crate::listen::buffer::{frozen, frozen_to_vec};

verus! {

/// Where the sender stands.
#[derive(Debug, Clone, Copy, PartialEq, Eq, Structural)]
pub enum SenderState {
    /// It waits for the next frame of the source.
    Pulling,
    /// It waits for a frame of audio to be written.
    Writing,
    /// It sends no more audio, and waits for the closing frame to be written.
    Draining,
    /// It has ended.
    Finished,
}

/// What happened since the sender last said what to do.
pub enum SenderEvent {
    /// The source gave a frame.
    Frame(Bytes),
    /// The source gave an error.
    SourceFailed,
    /// The source has no more frames.
    SourceEnded,
    /// The session was cancelled while the sender waited for the source.
    Cancelled,
    /// The frame was written.
    Written,
    /// The frame could not be written.
    WriteFailed,
}

/// What the sender wants done next.
#[derive(Debug, Clone, PartialEq, Eq)]
pub enum SenderAction {
    /// Ask the source for its next frame.
    Pull,
    /// Write these bytes as one binary frame, with the write side held for the sender
    /// alone. No bytes at all make the closing frame.
    Write(Vec<u8>),
    /// Nothing more: the duty ends.
    Stop,
}

/// What is to be written after a step, if anything.
pub enum Written {
    /// Nothing is written.
    Nothing,
    /// A frame of audio with these bytes.
    Audio(Seq<u8>),
    /// The closing frame, which has no bytes.
    Closing,
}

/// The state after an event and what is written then, or `None` where the event is
/// not one that the sender waits for in its state.
///
/// A frame of the source is written. When the source ends or fails, when the session
/// is cancelled, and when a frame of audio cannot be written, the sender turns to
/// draining and the closing frame is written. Once that write has ended, well or not,
/// the sender has finished.
pub open spec fn sender_next(state: SenderState, event: SenderEvent) -> Option<
    (SenderState, Written),
> {
    match (state, event) {
        (SenderState::Pulling, SenderEvent::Frame(bytes)) => Some(
            (SenderState::Writing, Written::Audio(frozen(bytes))),
        ),
        (SenderState::Pulling, SenderEvent::SourceFailed) => Some(
            (SenderState::Draining, Written::Closing),
        ),
        (SenderState::Pulling, SenderEvent::SourceEnded) => Some(
            (SenderState::Draining, Written::Closing),
        ),
        (SenderState::Pulling, SenderEvent::Cancelled) => Some(
            (SenderState::Draining, Written::Closing),
        ),
        (SenderState::Writing, SenderEvent::Written) => Some(
            (SenderState::Pulling, Written::Nothing),
        ),
        (SenderState::Writing, SenderEvent::WriteFailed) => Some(
            (SenderState::Draining, Written::Closing),
        ),
        (SenderState::Draining, SenderEvent::Written) => Some(
            (SenderState::Finished, Written::Nothing),
        ),
        (SenderState::Draining, SenderEvent::WriteFailed) => Some(
            (SenderState::Finished, Written::Nothing),
        ),
        _ => None,
    }
}

/// The action by which the sender asks for what a step calls for.
pub open spec fn sender_action(state: SenderState, written: Written) -> SenderActionView {
    match written {
        Written::Audio(bytes) => SenderActionView::Write(bytes),
        Written::Closing => SenderActionView::Write(Seq::empty()),
        Written::Nothing => if state == SenderState::Finished {
            SenderActionView::Stop
        } else {
            SenderActionView::Pull
        },
    }
}

/// What a [`SenderAction`] holds.
pub enum SenderActionView {
    Pull,
    Write(Seq<u8>),
    Stop,
}

impl View for SenderAction {
    type V = SenderActionView;

    open spec fn view(&self) -> SenderActionView {
        match self {
            SenderAction::Pull => SenderActionView::Pull,
            SenderAction::Write(bytes) => SenderActionView::Write(bytes@),
            SenderAction::Stop => SenderActionView::Stop,
        }
    }
}

/// The frames written so far, with those of one more step.
pub open spec fn with_written(frames: Seq<Seq<u8>>, written: Written) -> Seq<Seq<u8>> {
    match written {
        Written::Audio(bytes) => frames.push(bytes),
        Written::Closing => frames.push(Seq::empty()),
        Written::Nothing => frames,
    }
}

/// The frames received so far, with that of one more event.
pub open spec fn with_pulled(frames: Seq<Seq<u8>>, event: SenderEvent) -> Seq<Seq<u8>> {
    match event {
        SenderEvent::Frame(bytes) => frames.push(frozen(bytes)),
        _ => frames,
    }
}

/// The duty that sends the audio. It keeps account of the frames that the source gave
/// it and of the frames that it asked to be written.
pub struct SenderDuty {
    state: SenderState,
    pulled: Ghost<Seq<Seq<u8>>>,
    written: Ghost<Seq<Seq<u8>>>,
}

impl SenderDuty {
    /// Where the sender stands.
    pub closed spec fn state(&self) -> SenderState {
        self.state
    }

    /// The frames that the source gave, in order.
    pub closed spec fn pulled(&self) -> Seq<Seq<u8>> {
        self.pulled@
    }

    /// The frames that the sender asked to be written, in order.
    pub closed spec fn written(&self) -> Seq<Seq<u8>> {
        self.written@
    }

    /// What holds of every sender: the frames it asked to be written are the frames
    /// that the source gave, in the same order, and after them the closing frame once
    /// the sender has turned to draining.
    #[verifier::type_invariant]
    pub closed spec fn inv(&self) -> bool {
        match self.state {
            SenderState::Pulling => self.written@ == self.pulled@,
            SenderState::Writing => self.written@ == self.pulled@,
            SenderState::Draining => self.written@ == self.pulled@.push(Seq::empty()),
            SenderState::Finished => self.written@ == self.pulled@.push(Seq::empty()),
        }
    }

    /// A sender that waits for the first frame of the source.
    pub fn new() -> (r: Self)
        ensures
            r.inv(),
            r.state() == SenderState::Pulling,
            r.pulled() == Seq::<Seq<u8>>::empty(),
            r.written() == Seq::<Seq<u8>>::empty(),
    {
        SenderDuty {
            state: SenderState::Pulling,
            pulled: Ghost(Seq::empty()),
            written: Ghost(Seq::empty()),
        }
    }

    /// Where the sender stands.
    pub fn current(&self) -> (r: SenderState)
        ensures
            r == self.state(),
    {
        self.state
    }

    /// Takes an event and says what to do next. Gives `None`, and changes nothing,
    /// where the event is not one that the sender waits for: see [`sender_next`].
    pub fn step(&mut self, event: SenderEvent) -> (r: Option<SenderAction>)
        ensures
            final(self).inv(),
            match sender_next(old(self).state(), event) {
                Some((state, written)) => {
                    &&& r matches Some(action) && action@ == sender_action(state, written)
                    &&& final(self).state() == state
                    &&& final(self).written() == with_written(old(self).written(), written)
                    &&& final(self).pulled() == with_pulled(old(self).pulled(), event)
                },
                None => {
                    &&& r is None
                    &&& final(self).state() == old(self).state()
                    &&& final(self).written() == old(self).written()
                    &&& final(self).pulled() == old(self).pulled()
                },
            },
    {
        proof {
            use_type_invariant(&*self);
        }
        match (self.state, event) {
            (SenderState::Pulling, SenderEvent::Frame(bytes)) => {
                let payload = frozen_to_vec(&bytes);
                *self = SenderDuty {
                    state: SenderState::Writing,
                    pulled: Ghost(self.pulled@.push(payload@)),
                    written: Ghost(self.written@.push(payload@)),
                };
                Some(SenderAction::Write(payload))
            },
            (SenderState::Pulling, SenderEvent::SourceFailed)
            | (SenderState::Pulling, SenderEvent::SourceEnded)
            | (SenderState::Pulling, SenderEvent::Cancelled)
            | (SenderState::Writing, SenderEvent::WriteFailed) => {
                *self = SenderDuty {
                    state: SenderState::Draining,
                    pulled: self.pulled,
                    written: Ghost(self.written@.push(Seq::empty())),
                };
                Some(SenderAction::Write(Vec::new()))
            },
            (SenderState::Writing, SenderEvent::Written) => {
                *self = SenderDuty {
                    state: SenderState::Pulling,
                    pulled: self.pulled,
                    written: self.written,
                };
                Some(SenderAction::Pull)
            },
            (SenderState::Draining, SenderEvent::Written)
            | (SenderState::Draining, SenderEvent::WriteFailed) => {
                *self = SenderDuty {
                    state: SenderState::Finished,
                    pulled: self.pulled,
                    written: self.written,
                };
                Some(SenderAction::Stop)
            },
            _ => None,
        }
    }
}

/// Exactly one closing frame is written, after the last frame of audio and before the
/// sender ends. Until the sender turns to draining, the frames it asked to be written
/// are those that the source gave. From then on they are those and, last, the one
/// closing frame; where no frame of the source is empty, the closing frame is the
/// only frame without bytes.
pub proof fn lemma_one_closing_frame(duty: SenderDuty)
    requires
        duty.inv(),
    ensures
        duty.state() == SenderState::Pulling || duty.state() == SenderState::Writing
            ==> duty.written() == duty.pulled(),
        duty.state() == SenderState::Draining || duty.state() == SenderState::Finished ==> {
            &&& duty.written() == duty.pulled().push(Seq::empty())
            &&& duty.written().last().len() == 0
            &&& (forall|i: int| 0 <= i < duty.pulled().len() ==> (#[trigger] duty.pulled()[i]).len() > 0)
                ==> (forall|j: int|
                0 <= j < duty.written().len() ==> ((#[trigger] duty.written()[j]).len() == 0 <==> j
                    == duty.written().len() - 1))
        },
{
    if duty.state() == SenderState::Draining || duty.state() == SenderState::Finished {
        let written = duty.written();
        let pulled = duty.pulled();
        assert forall|j: int| 0 <= j < written.len() - 1 implies written[j] == pulled[j] by {}
    }
}

/// The closing frame is written on the way into draining and at no other step; the
/// sender turns to draining when the source has ended and when it has failed, alike;
/// and it ends only out of draining.
pub proof fn lemma_sender_steps(state: SenderState, event: SenderEvent)
    ensures
        sender_next(SenderState::Pulling, SenderEvent::SourceEnded) == Some(
            (SenderState::Draining, Written::Closing),
        ),
        sender_next(SenderState::Pulling, SenderEvent::SourceFailed) == Some(
            (SenderState::Draining, Written::Closing),
        ),
        sender_next(state, event) matches Some((next, written)) ==> {
            &&& written is Closing <==> next == SenderState::Draining
            &&& next == SenderState::Draining ==> state != SenderState::Draining
            &&& next == SenderState::Finished ==> state == SenderState::Draining
        },
        sender_next(SenderState::Finished, event) is None,
{
}

} // verus!
