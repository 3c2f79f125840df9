use bytes::Bytes;
use deepgram::listen::chunker::{frames_of, ChunkStep, FileChunker, Polled};

fn bytes_of(len: usize) -> Vec<u8> {
    (0..len).map(|i| (i % 251) as u8).collect()
}

fn lens(frames: &[Bytes]) -> Vec<usize> {
    frames.iter().map(|f| f.len()).collect()
}

fn glue(frames: &[Bytes]) -> Vec<u8> {
    let mut all = Vec::new();
    for f in frames {
        all.extend_from_slice(&f[..]);
    }
    all
}

#[test]
fn one_second_of_stereo_audio_gives_forty_full_frames() {
    let audio = bytes_of(176400);
    let frames = frames_of(&vec![audio.clone()], 4410);
    assert_eq!(frames.len(), 40);
    assert!(frames.iter().all(|f| f.len() == 4410));
    assert_eq!(glue(&frames), audio);
}

#[test]
fn frame_count_is_the_rounded_up_quotient() {
    for (n, c) in [(0usize, 4usize), (1, 4), (3, 4), (4, 4), (5, 4), (8, 4), (9, 4), (10, 3), (7, 1)] {
        let frames = frames_of(&vec![bytes_of(n)], c);
        assert_eq!(frames.len(), (n + c - 1) / c, "n = {}, c = {}", n, c);
    }
}

#[test]
fn last_frame_holds_the_remainder() {
    let frames = frames_of(&vec![bytes_of(10)], 4);
    assert_eq!(lens(&frames), vec![4, 4, 2]);
    assert_eq!(&frames[2][..], &bytes_of(10)[8..]);
}

#[test]
fn no_short_frame_on_a_frame_boundary() {
    let frames = frames_of(&vec![bytes_of(12)], 4);
    assert_eq!(lens(&frames), vec![4, 4, 4]);
}

#[test]
fn empty_source_gives_no_frame() {
    assert!(frames_of(&vec![], 4).is_empty());
    assert!(frames_of(&vec![vec![], vec![]], 4).is_empty());
}

#[test]
fn frames_do_not_depend_on_how_the_source_splits_its_bytes() {
    let audio = bytes_of(23);
    let whole = frames_of(&vec![audio.clone()], 5);
    let pieces = vec![
        audio[..1].to_vec(),
        audio[1..2].to_vec(),
        vec![],
        audio[2..13].to_vec(),
        audio[13..23].to_vec(),
    ];
    let split = frames_of(&pieces, 5);
    assert_eq!(whole, split);
    assert_eq!(lens(&split), vec![5, 5, 5, 5, 3]);
    assert_eq!(glue(&split), audio);
}

#[test]
fn a_step_asks_the_source_while_less_than_a_frame_is_pending() {
    let mut chunker = FileChunker::new(4);
    assert_eq!(chunker.chunk_size(), 4);
    assert!(matches!(chunker.poll_next::<()>(None), ChunkStep::AskSource));
    assert!(matches!(
        chunker.poll_next::<()>(Some(Polled::Data(vec![1, 2, 3]))),
        ChunkStep::AskSource
    ));
    assert_eq!(chunker.buffered_len(), 3);
    match chunker.poll_next::<()>(Some(Polled::Data(vec![4, 5, 6, 7, 8, 9]))) {
        ChunkStep::Frame(frame) => assert_eq!(&frame[..], &[1, 2, 3, 4]),
        _ => panic!("a full frame was pending"),
    }
    match chunker.poll_next::<()>(None) {
        ChunkStep::Frame(frame) => assert_eq!(&frame[..], &[5, 6, 7, 8]),
        _ => panic!("a full frame was pending"),
    }
    assert!(matches!(chunker.poll_next::<()>(None), ChunkStep::AskSource));
    match chunker.poll_next::<()>(Some(Polled::Ended)) {
        ChunkStep::Frame(frame) => assert_eq!(&frame[..], &[9]),
        _ => panic!("one byte was pending"),
    }
    assert!(matches!(chunker.poll_next::<()>(Some(Polled::Ended)), ChunkStep::Ended));
}

#[test]
fn a_failing_source_is_reported_and_nothing_pending_is_lost() {
    let mut chunker = FileChunker::new(4);
    assert!(matches!(
        chunker.poll_next::<&str>(Some(Polled::Data(vec![1, 2]))),
        ChunkStep::AskSource
    ));
    match chunker.poll_next(Some(Polled::Failed("disk"))) {
        ChunkStep::Failed(e) => assert_eq!(e, "disk"),
        _ => panic!("the error of the source was due"),
    }
    assert_eq!(chunker.buffered_len(), 2);
    assert!(matches!(chunker.poll_next::<&str>(Some(Polled::Pending)), ChunkStep::Pending));
    assert_eq!(chunker.buffered_len(), 2);
}

#[test]
fn no_frame_is_longer_than_the_chunk_size_when_the_source_ends() {
    let mut chunker = FileChunker::new(4);
    match chunker.poll_next::<()>(Some(Polled::Data((1..=9).collect()))) {
        ChunkStep::Frame(frame) => assert_eq!(&frame[..], &[1, 2, 3, 4]),
        _ => panic!("a full frame was pending"),
    }
    assert_eq!(chunker.buffered_len(), 5);
    match chunker.poll_next::<()>(Some(Polled::Ended)) {
        ChunkStep::Frame(frame) => assert_eq!(&frame[..], &[5, 6, 7, 8]),
        _ => panic!("a full frame was pending"),
    }
    match chunker.poll_next::<()>(Some(Polled::Ended)) {
        ChunkStep::Frame(frame) => assert_eq!(&frame[..], &[9]),
        _ => panic!("one byte was pending"),
    }
    assert!(matches!(chunker.poll_next::<()>(Some(Polled::Ended)), ChunkStep::Ended));
    assert_eq!(chunker.buffered_len(), 0);
}
