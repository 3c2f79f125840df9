//! The frames that a run of bytes is cut into, and what holds of them.

use vstd::prelude::*;

verus! {

/// The frames that `bytes` is cut into at `size` bytes each: `size` bytes at a time
/// from the front, and what is left at the end, if anything, as a last frame.
pub open spec fn chunks(bytes: Seq<u8>, size: nat) -> Seq<Seq<u8>>
    decreases bytes.len(),
{
    if size == 0 || bytes.len() == 0 {
        Seq::empty()
    } else if bytes.len() <= size {
        seq![bytes]
    } else {
        seq![bytes.take(size as int)] + chunks(bytes.skip(size as int), size)
    }
}

/// The bytes of all parts, one part after the other.
pub open spec fn concat(parts: Seq<Seq<u8>>) -> Seq<u8>
    decreases parts.len(),
{
    if parts.len() == 0 {
        Seq::empty()
    } else {
        parts[0] + concat(parts.drop_first())
    }
}

/// Whether every part has exactly `size` bytes.
pub open spec fn all_full(parts: Seq<Seq<u8>>, size: nat) -> bool {
    forall|i: int| 0 <= i < parts.len() ==> (#[trigger] parts[i]).len() == size
}

/// What is left at the end as a last frame: `tail` itself, unless it is empty.
pub open spec fn last_frame(tail: Seq<u8>) -> Seq<Seq<u8>> {
    if tail.len() == 0 {
        Seq::empty()
    } else {
        seq![tail]
    }
}

/// Adding a part at the end adds its bytes at the end.
pub proof fn lemma_concat_push(parts: Seq<Seq<u8>>, part: Seq<u8>)
    ensures
        concat(parts.push(part)) == concat(parts) + part,
    decreases parts.len(),
{
    if parts.len() == 0 {
        assert(parts.push(part).drop_first() =~= Seq::<Seq<u8>>::empty());
        assert(concat(Seq::<Seq<u8>>::empty()) =~= Seq::<u8>::empty());
    } else {
        assert(parts.push(part).drop_first() =~= parts.drop_first().push(part));
        lemma_concat_push(parts.drop_first(), part);
    }
}

/// `N` bytes cut at `C` bytes give `ceil(N / C)` frames.
pub proof fn lemma_chunk_count(bytes: Seq<u8>, size: nat)
    requires
        size > 0,
    ensures
        chunks(bytes, size).len() == (bytes.len() + size - 1) / (size as int),
    decreases bytes.len(),
{
    let n = bytes.len() as int;
    let c = size as int;
    if n == 0 {
        assert((n + c - 1) / c == 0) by (nonlinear_arith)
            requires
                n == 0,
                c > 0,
        ;
    } else if n <= c {
        assert((n + c - 1) / c == 1) by (nonlinear_arith)
            requires
                0 < n <= c,
        ;
    } else {
        lemma_chunk_count(bytes.skip(c), size);
        assert((n + c - 1) / c == 1 + ((n - c) + c - 1) / c) by (nonlinear_arith)
            requires
                n > c,
                c > 0,
        ;
    }
}

/// Every frame but the last has exactly `C` bytes, and the last has at least one byte
/// and at most `C`. Where `C` divides `N`, the last frame is a full one too.
pub proof fn lemma_chunk_sizes(bytes: Seq<u8>, size: nat)
    requires
        size > 0,
    ensures
        forall|i: int|
            0 <= i < chunks(bytes, size).len() - 1 ==> (#[trigger] chunks(bytes, size)[i]).len()
                == size,
        chunks(bytes, size).len() > 0 ==> 0 < chunks(bytes, size).last().len() <= size,
        bytes.len() % size == 0 ==> all_full(chunks(bytes, size), size),
    decreases bytes.len(),
{
    let n = bytes.len() as int;
    let c = size as int;
    if 0 < n <= c {
        if n % c == 0 {
            assert(n == c) by (nonlinear_arith)
                requires
                    0 < n <= c,
                    n % c == 0,
            ;
        }
    } else if n > c {
        let rest = bytes.skip(c);
        lemma_chunk_sizes(rest, size);
        let all = chunks(bytes, size);
        assert forall|i: int| 0 <= i < all.len() - 1 implies (#[trigger] all[i]).len() == size by {}
        if n % c == 0 {
            assert((n - c) % c == 0) by (nonlinear_arith)
                requires
                    n % c == 0,
                    n > c,
                    c > 0,
            ;
            assert forall|i: int| 0 <= i < all.len() implies (#[trigger] all[i]).len() == size by {}
        }
    }
}

/// The frames, put together in order, are the bytes that were cut.
pub proof fn lemma_chunks_concat(bytes: Seq<u8>, size: nat)
    requires
        size > 0,
    ensures
        concat(chunks(bytes, size)) == bytes,
    decreases bytes.len(),
{
    let c = size as int;
    if bytes.len() == 0 {
    } else if bytes.len() <= size {
        assert(seq![bytes].drop_first() =~= Seq::<Seq<u8>>::empty());
        assert(concat(Seq::<Seq<u8>>::empty()) =~= Seq::<u8>::empty());
    } else {
        let rest = bytes.skip(c);
        lemma_chunks_concat(rest, size);
        let all = chunks(bytes, size);
        assert(all.drop_first() =~= chunks(rest, size));
    }
}

/// Full frames followed by less than a frame are the frames of their bytes: no other
/// cut of the same bytes has full frames first and less than a frame last.
pub proof fn lemma_chunks_unique(frames: Seq<Seq<u8>>, tail: Seq<u8>, size: nat)
    requires
        size > 0,
        all_full(frames, size),
        tail.len() < size,
    ensures
        chunks(concat(frames) + tail, size) == frames + last_frame(tail),
    decreases frames.len(),
{
    let c = size as int;
    if frames.len() == 0 {
    } else {
        let rest = frames.drop_first();
        assert(all_full(rest, size)) by {
            assert forall|i: int| 0 <= i < rest.len() implies (#[trigger] rest[i]).len()
                == size by {}
        }
        lemma_chunks_unique(rest, tail, size);
        let bytes = concat(frames) + tail;
        assert(bytes.take(c) =~= frames[0]);
        assert(bytes.skip(c) =~= concat(rest) + tail);
    }
}

/// What a byte source gives when it is asked for more.
pub enum Feed {
    /// Nothing yet.
    Pending,
    /// Some more bytes.
    Data(Seq<u8>),
    /// An error in place of bytes.
    Failed,
    /// Nothing more: the source has ended.
    Ended,
}

/// What a step of cutting comes to.
pub enum Cut {
    /// A frame leaves.
    Frame(Seq<u8>),
    /// The error of the source is handed on.
    Failed,
    /// No frame is left and the source has ended.
    Ended,
    /// The source has nothing yet.
    Pending,
    /// Less than a frame is held: the source is to be asked.
    AskSource,
}

/// A step with `held` bytes at hand and nothing new from the source: with fewer than
/// a full frame the source is to be asked and all stays; else the first `size` bytes
/// leave as a frame and the rest stays.
pub open spec fn cut_ready(held: Seq<u8>, size: nat) -> (Seq<u8>, Cut) {
    if held.len() < size {
        (held, Cut::AskSource)
    } else {
        (held.skip(size as int), Cut::Frame(held.take(size as int)))
    }
}

/// One step of cutting: the bytes that stay, and what the step comes to.
///
/// `feed` is `None` when a frame is asked for, and holds what the source gave when it
/// was asked. New bytes join those held, and a full frame leaves as soon as there are
/// enough for one. When the source has ended, a full frame leaves while more than one
/// is held; then what is held leaves as the last frame; then the cutting has ended.
/// An error and a source that has nothing yet leave what is held as it is.
pub open spec fn cut_step(held: Seq<u8>, size: nat, feed: Option<Feed>) -> (Seq<u8>, Cut) {
    match feed {
        None => cut_ready(held, size),
        Some(Feed::Data(bytes)) => cut_ready(held + bytes, size),
        Some(Feed::Pending) => (held, Cut::Pending),
        Some(Feed::Failed) => (held, Cut::Failed),
        Some(Feed::Ended) => if held.len() == 0 {
            (held, Cut::Ended)
        } else if held.len() <= size {
            (Seq::empty(), Cut::Frame(held))
        } else {
            (held.skip(size as int), Cut::Frame(held.take(size as int)))
        },
    }
}

/// Whether a source gives bytes or nothing yet at each of these reads, and never an
/// error or its end.
pub open spec fn plain_reads(reads: Seq<Feed>) -> bool {
    forall|i: int| 0 <= i < reads.len() ==> (#[trigger] reads[i]) is Data || reads[i] is Pending
}

/// All the bytes that a source gives over these reads, in order.
pub open spec fn bytes_read(reads: Seq<Feed>) -> Seq<u8>
    decreases reads.len(),
{
    if reads.len() == 0 {
        Seq::empty()
    } else {
        match reads[0] {
            Feed::Data(bytes) => bytes + bytes_read(reads.drop_first()),
            _ => bytes_read(reads.drop_first()),
        }
    }
}

/// The frames that leave when the cutting is run to its end with `held` bytes at
/// hand, over a source that gives `reads` one after the other and then has ended:
/// a frame is asked for again and again, and whenever the source is to be asked, it
/// is, and what it gives goes into the next step.
pub open spec fn frames_from(held: Seq<u8>, size: nat, reads: Seq<Feed>) -> Seq<Seq<u8>>
    decreases reads.len(), held.len(),
{
    if size == 0 {
        Seq::empty()
    } else {
        match cut_step(held, size, None) {
            (rest, Cut::Frame(frame)) => seq![frame] + frames_from(rest, size, reads),
            _ => if reads.len() == 0 {
                match cut_step(held, size, Some(Feed::Ended)) {
                    (_, Cut::Frame(frame)) => seq![frame],
                    _ => Seq::empty(),
                }
            } else {
                match cut_step(held, size, Some(reads[0])) {
                    (rest, Cut::Frame(frame)) => seq![frame] + frames_from(
                        rest,
                        size,
                        reads.drop_first(),
                    ),
                    (rest, _) => frames_from(rest, size, reads.drop_first()),
                }
            },
        }
    }
}

/// The reads of a source that gives these parts one after the other, each at once.
pub open spec fn reads_of(parts: Seq<Seq<u8>>) -> Seq<Feed> {
    parts.map_values(|part: Seq<u8>| Feed::Data(part))
}

/// Such a source gives the bytes of its parts, and neither an error nor its end.
pub proof fn lemma_reads_of(parts: Seq<Seq<u8>>)
    ensures
        plain_reads(reads_of(parts)),
        bytes_read(reads_of(parts)) == concat(parts),
    decreases parts.len(),
{
    if parts.len() > 0 {
        lemma_reads_of(parts.drop_first());
        assert(reads_of(parts).drop_first() =~= reads_of(parts.drop_first()));
    }
}

/// With a full frame at hand, the first frame is cut from it whatever follows.
pub proof fn lemma_chunks_front(held: Seq<u8>, more: Seq<u8>, size: nat)
    requires
        size > 0,
        held.len() >= size,
    ensures
        chunks(held + more, size) == seq![held.take(size as int)] + chunks(
            held.skip(size as int) + more,
            size,
        ),
{
    let all = held + more;
    let c = size as int;
    assert(all.take(c) =~= held.take(c));
    assert(all.skip(c) =~= held.skip(c) + more);
    if all.len() <= size {
        assert(all =~= held.take(c));
        assert(held.skip(c) + more =~= Seq::<u8>::empty());
    }
}

/// However the source splits its bytes over its reads, and however often it has
/// nothing yet, the frames that leave are the frames that all bytes at hand and
/// read, taken together, are cut into.
pub proof fn lemma_frames_from(held: Seq<u8>, size: nat, reads: Seq<Feed>)
    requires
        size > 0,
        plain_reads(reads),
    ensures
        frames_from(held, size, reads) == chunks(held + bytes_read(reads), size),
    decreases reads.len(), held.len(),
{
    let c = size as int;
    if held.len() >= size {
        lemma_frames_from(held.skip(c), size, reads);
        lemma_chunks_front(held, bytes_read(reads), size);
    } else if reads.len() == 0 {
        assert(held + bytes_read(reads) =~= held);
    } else {
        let tail = reads.drop_first();
        assert(plain_reads(tail)) by {
            assert forall|i: int| 0 <= i < tail.len() implies (#[trigger] tail[i]) is Data
                || tail[i] is Pending by {
                assert(tail[i] == reads[i + 1]);
            }
        }
        match reads[0] {
            Feed::Data(bytes) => {
                let all = held + bytes;
                assert(held + bytes_read(reads) =~= all + bytes_read(tail));
                if all.len() < size {
                    lemma_frames_from(all, size, tail);
                } else {
                    lemma_frames_from(all.skip(c), size, tail);
                    lemma_chunks_front(all, bytes_read(tail), size);
                }
            },
            _ => {
                assert(reads[0] is Pending);
                lemma_frames_from(held, size, tail);
            },
        }
    }
}

/// For a source that gives `N` bytes in all, in reads of any sizes, and then ends
/// without an error, cut at `C` bytes: `ceil(N / C)` frames leave; each but the last
/// has `C` bytes, and the last has at least one and at most `C`; where `C` divides
/// `N` every frame is a full one; and the frames, put together in order, are the
/// bytes of the source. No step hands on an error, since the source gave none.
pub proof fn lemma_source_frames(size: nat, reads: Seq<Feed>)
    requires
        size > 0,
        plain_reads(reads),
    ensures
        ({
            let frames = frames_from(Seq::empty(), size, reads);
            let bytes = bytes_read(reads);
            &&& frames == chunks(bytes, size)
            &&& frames.len() == (bytes.len() + size - 1) / (size as int)
            &&& forall|i: int| 0 <= i < frames.len() - 1 ==> (#[trigger] frames[i]).len() == size
            &&& frames.len() > 0 ==> 0 < frames.last().len() <= size
            &&& forall|i: int| 0 <= i < frames.len() ==> (#[trigger] frames[i]).len() > 0
            &&& bytes.len() % size == 0 ==> all_full(frames, size)
            &&& concat(frames) == bytes
        }),
        forall|held: Seq<u8>, feed: Option<Feed>|
            (#[trigger] cut_step(held, size, feed)).1 is Failed <==> feed == Some(Feed::Failed),
{
    let bytes = bytes_read(reads);
    lemma_frames_from(Seq::empty(), size, reads);
    assert(Seq::<u8>::empty() + bytes =~= bytes);
    lemma_chunk_count(bytes, size);
    lemma_chunk_sizes(bytes, size);
    lemma_chunks_concat(bytes, size);
    let frames = chunks(bytes, size);
    assert forall|i: int| 0 <= i < frames.len() implies (#[trigger] frames[i]).len() > 0 by {
        if i == frames.len() - 1 {
            assert(frames[i] == frames.last());
        }
    }
}

} // verus!
