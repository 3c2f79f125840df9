use bytes::Bytes;
use deepgram::listen::chunker::frames_of;
use deepgram::listen::keep_alive::{
    keep_alive_message, KeepAliveAction, KeepAliveDuty, KeepAliveEvent, KeepAliveState,
    KEEP_ALIVE_PERIOD_SECS,
};
use deepgram::listen::pacer::{FilePacer, PacerAction, PacerEvent, PacerState};
use deepgram::listen::receiver::{Inbound, ReceiverAction, ReceiverDuty, ReceiverEvent, ReceiverState};
use deepgram::listen::sender::{SenderAction, SenderDuty, SenderEvent, SenderState};
use deepgram::listen::session::{Session, SessionAction, SessionEvent, SessionState};

/// Runs a sender over frames whose writes all succeed, and collects what it writes.
fn run_sender(frames: Vec<Bytes>, last: SenderEvent) -> (Vec<Vec<u8>>, SenderDuty) {
    let mut duty = SenderDuty::new();
    let mut written = Vec::new();
    for frame in frames {
        match duty.step(SenderEvent::Frame(frame)) {
            Some(SenderAction::Write(bytes)) => written.push(bytes),
            other => panic!("a write was due, not {:?}", other),
        }
        assert_eq!(duty.current(), SenderState::Writing);
        assert_eq!(duty.step(SenderEvent::Written), Some(SenderAction::Pull));
        assert_eq!(duty.current(), SenderState::Pulling);
    }
    match duty.step(last) {
        Some(SenderAction::Write(bytes)) => written.push(bytes),
        other => panic!("the closing frame was due, not {:?}", other),
    }
    assert_eq!(duty.current(), SenderState::Draining);
    (written, duty)
}

#[test]
fn sender_writes_one_closing_frame_after_the_audio() {
    let audio: Vec<u8> = (0..176400usize).map(|i| (i % 256) as u8).collect();
    let frames = frames_of(&vec![audio], 4410);
    let (written, mut duty) = run_sender(frames, SenderEvent::SourceEnded);
    assert_eq!(written.len(), 41);
    assert!(written[..40].iter().all(|f| f.len() == 4410));
    assert!(written[40].is_empty());
    assert_eq!(written.iter().filter(|f| f.is_empty()).count(), 1);
    assert_eq!(duty.step(SenderEvent::Written), Some(SenderAction::Stop));
    assert_eq!(duty.current(), SenderState::Finished);
    assert_eq!(duty.step(SenderEvent::SourceEnded), None);
    assert_eq!(duty.step(SenderEvent::Written), None);
    assert_eq!(duty.current(), SenderState::Finished);
}

#[test]
fn sender_writes_the_bytes_of_each_frame_in_order() {
    let frames = vec![Bytes::from_static(b"abc"), Bytes::from_static(b"de"), Bytes::from_static(b"f")];
    let (written, _) = run_sender(frames, SenderEvent::SourceEnded);
    assert_eq!(written, vec![b"abc".to_vec(), b"de".to_vec(), b"f".to_vec(), vec![]]);
}

#[test]
fn sender_closes_after_a_source_error() {
    let frames = vec![Bytes::from_static(b"abc")];
    let (written, mut duty) = run_sender(frames, SenderEvent::SourceFailed);
    assert_eq!(written, vec![b"abc".to_vec(), vec![]]);
    assert_eq!(duty.step(SenderEvent::WriteFailed), Some(SenderAction::Stop));
    assert_eq!(duty.current(), SenderState::Finished);
}

#[test]
fn sender_closes_after_a_failed_write() {
    let mut duty = SenderDuty::new();
    assert_eq!(
        duty.step(SenderEvent::Frame(Bytes::from_static(b"abc"))),
        Some(SenderAction::Write(b"abc".to_vec()))
    );
    assert_eq!(duty.step(SenderEvent::WriteFailed), Some(SenderAction::Write(vec![])));
    assert_eq!(duty.current(), SenderState::Draining);
    assert_eq!(duty.step(SenderEvent::Frame(Bytes::from_static(b"late"))), None);
    assert_eq!(duty.current(), SenderState::Draining);
    assert_eq!(duty.step(SenderEvent::Written), Some(SenderAction::Stop));
}

#[test]
fn sender_closes_when_cancelled() {
    let mut duty = SenderDuty::new();
    assert_eq!(duty.step(SenderEvent::Cancelled), Some(SenderAction::Write(vec![])));
    assert_eq!(duty.step(SenderEvent::Cancelled), None);
}

#[test]
fn sender_ignores_what_it_does_not_wait_for() {
    let mut duty = SenderDuty::new();
    assert_eq!(duty.step(SenderEvent::Written), None);
    assert_eq!(duty.step(SenderEvent::WriteFailed), None);
    assert_eq!(duty.current(), SenderState::Pulling);
    assert!(duty.step(SenderEvent::Frame(Bytes::from_static(b"a"))).is_some());
    assert_eq!(duty.step(SenderEvent::SourceEnded), None);
    assert_eq!(duty.step(SenderEvent::Cancelled), None);
    assert_eq!(duty.current(), SenderState::Writing);
}

#[test]
fn keep_alive_writes_at_each_tick_until_a_write_fails() {
    assert_eq!(KEEP_ALIVE_PERIOD_SECS, 10);
    assert_eq!(keep_alive_message(), "{\"type\": \"KeepAlive\"}");
    let (mut duty, first) = KeepAliveDuty::new(true);
    assert_eq!(first, KeepAliveAction::Wait);
    assert_eq!(duty.current(), KeepAliveState::Waiting);
    for _ in 0..3 {
        assert_eq!(duty.step(KeepAliveEvent::Tick), Some(KeepAliveAction::WriteMessage));
        assert_eq!(duty.step(KeepAliveEvent::Tick), None);
        assert_eq!(duty.step(KeepAliveEvent::Written), Some(KeepAliveAction::Wait));
    }
    assert_eq!(duty.step(KeepAliveEvent::Tick), Some(KeepAliveAction::WriteMessage));
    assert_eq!(duty.step(KeepAliveEvent::WriteFailed), Some(KeepAliveAction::Stop));
    assert_eq!(duty.current(), KeepAliveState::Stopped);
    assert_eq!(duty.step(KeepAliveEvent::Tick), None);
}

#[test]
fn keep_alive_does_nothing_unless_asked_for() {
    let (mut duty, first) = KeepAliveDuty::new(false);
    assert_eq!(first, KeepAliveAction::Stop);
    assert_eq!(duty.current(), KeepAliveState::Stopped);
    assert_eq!(duty.step(KeepAliveEvent::Tick), None);
    let (mut waiting, _) = KeepAliveDuty::new(true);
    assert_eq!(waiting.step(KeepAliveEvent::Cancelled), Some(KeepAliveAction::Stop));
    assert_eq!(waiting.current(), KeepAliveState::Stopped);
}

#[test]
fn receiver_reads_nothing_while_a_result_is_undelivered() {
    let mut duty = ReceiverDuty::new();
    let text = |t: &str| ReceiverEvent::Message(Inbound::Text(t.to_string()));
    assert_eq!(duty.step(text("one")), Some(ReceiverAction::Deliver("one".to_string())));
    assert_eq!(duty.current(), ReceiverState::Delivering);
    assert_eq!(duty.step(text("two")), None);
    assert_eq!(duty.step(ReceiverEvent::ReadEnded), None);
    assert_eq!(duty.current(), ReceiverState::Delivering);
    assert_eq!(duty.step(ReceiverEvent::Delivered), Some(ReceiverAction::Read));
    assert_eq!(duty.step(text("two")), Some(ReceiverAction::Deliver("two".to_string())));
    assert_eq!(duty.step(ReceiverEvent::Delivered), Some(ReceiverAction::Read));
    assert_eq!(duty.step(ReceiverEvent::Delivered), None);
    assert_eq!(duty.step(ReceiverEvent::ReadEnded), Some(ReceiverAction::Stop));
    assert_eq!(duty.current(), ReceiverState::Closed);
    assert_eq!(duty.step(text("late")), None);
}

#[test]
fn receiver_drops_frames_that_are_not_text() {
    let mut duty = ReceiverDuty::new();
    for frame in [
        Inbound::Binary(vec![1, 2]),
        Inbound::Ping(vec![]),
        Inbound::Pong(vec![3]),
        Inbound::Close,
        Inbound::Other,
    ] {
        assert_eq!(duty.step(ReceiverEvent::Message(frame)), Some(ReceiverAction::Read));
        assert_eq!(duty.current(), ReceiverState::Reading);
    }
    assert_eq!(duty.step(ReceiverEvent::ReadFailed), Some(ReceiverAction::Stop));
    assert_eq!(duty.current(), ReceiverState::Closed);
}

#[test]
fn receiver_ends_when_the_caller_lets_go() {
    let mut duty = ReceiverDuty::new();
    assert_eq!(duty.step(ReceiverEvent::ConsumerClosed), None);
    assert!(duty.step(ReceiverEvent::Message(Inbound::Text("{}".to_string()))).is_some());
    assert_eq!(duty.step(ReceiverEvent::ConsumerClosed), Some(ReceiverAction::Stop));
    assert_eq!(duty.current(), ReceiverState::Closed);
}

#[test]
fn session_runs_from_handshake_to_close() {
    let mut session = Session::new(true);
    assert_eq!(session.current(), SessionState::Connecting);
    assert_eq!(session.step(SessionEvent::ReceiverEnded), None);
    assert_eq!(session.step(SessionEvent::SenderDraining), None);
    assert_eq!(
        session.step(SessionEvent::Connected),
        Some(SessionAction::StartDuties { keep_alive: true })
    );
    assert_eq!(session.current(), SessionState::Open);
    assert_eq!(session.step(SessionEvent::Connected), None);
    assert_eq!(session.step(SessionEvent::SenderDraining), Some(SessionAction::Continue));
    assert_eq!(session.current(), SessionState::Draining);
    assert_eq!(session.step(SessionEvent::ReceiverEnded), Some(SessionAction::CancelDuties));
    assert_eq!(session.current(), SessionState::Closed);
    assert_eq!(session.step(SessionEvent::ReceiverEnded), None);
    assert_eq!(session.step(SessionEvent::Connected), None);
}

#[test]
fn session_fails_with_its_handshake() {
    let mut session = Session::new(false);
    assert_eq!(session.step(SessionEvent::ConnectFailed), Some(SessionAction::ReportFailure));
    assert_eq!(session.current(), SessionState::Failed);
    assert_eq!(session.step(SessionEvent::Connected), None);
    assert_eq!(session.step(SessionEvent::ReceiverEnded), None);
    assert_eq!(session.current(), SessionState::Failed);
    let mut open = Session::new(false);
    assert_eq!(
        open.step(SessionEvent::Connected),
        Some(SessionAction::StartDuties { keep_alive: false })
    );
    assert_eq!(open.step(SessionEvent::ConnectFailed), None);
    assert_eq!(open.step(SessionEvent::ReceiverEnded), Some(SessionAction::CancelDuties));
    assert_eq!(open.current(), SessionState::Closed);
}

#[test]
fn pacer_holds_each_frame_back_for_one_wait() {
    let mut pacer: FilePacer<&str, u64> = FilePacer::new(100);
    assert_eq!(*pacer.delay(), 100);
    assert_eq!(pacer.current(), PacerState::Pulling);
    let mut sleeps = 0;
    let mut sent = Vec::new();
    for frame in ["a", "b", "c"] {
        let (next, action) = pacer.step(PacerEvent::Item(frame));
        assert_eq!(action, Some(PacerAction::Sleep));
        assert_eq!(next.current(), PacerState::Waiting);
        let (next, action) = next.step(PacerEvent::Sent);
        assert_eq!(action, None);
        assert_eq!(next.current(), PacerState::Waiting);
        sleeps += 1;
        let (next, action) = next.step(PacerEvent::Slept);
        match action {
            Some(PacerAction::Send(item)) => sent.push(item),
            other => panic!("the frame was due, not {:?}", other),
        }
        assert_eq!(sent.len(), sleeps);
        let (next, action) = next.step(PacerEvent::Sent);
        assert_eq!(action, Some(PacerAction::Pull));
        pacer = next;
    }
    assert_eq!(sent, vec!["a", "b", "c"]);
    let (pacer, action) = pacer.step(PacerEvent::SourceEnded);
    assert_eq!(action, Some(PacerAction::Stop));
    assert_eq!(pacer.current(), PacerState::Finished);
    let (pacer, action) = pacer.step(PacerEvent::Item("late"));
    assert_eq!(action, None);
    assert_eq!(pacer.current(), PacerState::Finished);
}

#[test]
fn pacer_ends_when_nobody_takes_its_frames() {
    let pacer: FilePacer<u8, u64> = FilePacer::new(5);
    let (pacer, _) = pacer.step(PacerEvent::Item(1));
    let (pacer, action) = pacer.step(PacerEvent::ConsumerClosed);
    assert_eq!(action, None);
    let (pacer, action) = pacer.step(PacerEvent::Slept);
    assert_eq!(action, Some(PacerAction::Send(1)));
    let (pacer, action) = pacer.step(PacerEvent::ConsumerClosed);
    assert_eq!(action, Some(PacerAction::Stop));
    assert_eq!(pacer.current(), PacerState::Finished);
}
