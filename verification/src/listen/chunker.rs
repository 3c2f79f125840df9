//! Cutting a stream of bytes into frames of one size.

use vstd::prelude::*;
use bytes::{Bytes, BytesMut};
use crate::listen::buffer::{
    buffer_extend, buffer_is_empty, buffer_len, buffer_split_to, buffered, frames_view, freeze,
    frozen, new_buffer,
};
use crate::listen::frames::{
    all_full, chunks, concat, cut_ready, cut_step, frames_from, lemma_chunks_unique,
    lemma_concat_push, lemma_frames_from, lemma_reads_of, reads_of, Cut, Feed,
};

verus! {

/// What the byte source gave when it was asked for more.
pub enum Polled<E> {
    /// Nothing yet: the source will wake the task when it has more.
    Pending,
    /// Some more bytes.
    Data(Vec<u8>),
    /// An error in place of bytes.
    Failed(E),
    /// Nothing more: the source has ended.
    Ended,
}

/// What the chunker does next.
pub enum ChunkStep<E> {
    /// It hands out a frame.
    Frame(Bytes),
    /// It hands out the source's error in place of a frame.
    Failed(E),
    /// It has ended: no frame is left.
    Ended,
    /// It waits for the source.
    Pending,
    /// It needs more bytes: the source is to be asked, and what it gives handed back.
    AskSource,
}

/// Cuts the bytes of a source into frames of `chunk_size` bytes. Only the last frame
/// may be shorter, when the source ends between two frames.
pub struct FileChunker {
    chunk_size: usize,
    buf: BytesMut,
}

impl FileChunker {
    /// The size of a full frame.
    pub closed spec fn size(&self) -> nat {
        self.chunk_size as nat
    }

    /// The bytes that came from the source and have not left in a frame yet.
    pub closed spec fn pending(&self) -> Seq<u8> {
        buffered(self.buf)
    }

    /// A chunker for frames of `chunk_size` bytes, with nothing pending. Twice the
    /// frame size is a capacity that can be asked for.
    pub fn new(chunk_size: usize) -> (r: Self)
        requires
            2 * chunk_size <= isize::MAX,
        ensures
            r.size() == chunk_size,
            r.pending() == Seq::<u8>::empty(),
    {
        FileChunker { chunk_size, buf: new_buffer(2 * chunk_size) }
    }

    /// The size of a full frame.
    pub fn chunk_size(&self) -> (r: usize)
        ensures
            r == self.size(),
    {
        self.chunk_size
    }

    /// How many bytes are pending.
    pub fn buffered_len(&self) -> (r: usize)
        ensures
            r == self.pending().len(),
    {
        buffer_len(&self.buf)
    }

    /// One step of producing the next frame: [`cut_step`] on what is pending.
    ///
    /// `polled` is `None` when a frame is asked for, and holds what the source gave
    /// when the step before was [`ChunkStep::AskSource`]. New bytes join what is
    /// pending. A full frame leaves as soon as enough is pending for one. When the
    /// source has ended, what is pending leaves as one last frame, after the full
    /// frames if more than one frame is pending; the chunker has ended when nothing is
    /// pending. An error of the source is handed on and nothing pending is lost. No
    /// frame is longer than the chunk size, and none is empty unless the chunk size
    /// is zero.
    pub fn poll_next<E>(&mut self, polled: Option<Polled<E>>) -> (r: ChunkStep<E>)
        requires
            polled matches Some(Polled::Data(bytes)) ==> old(self).pending().len() + bytes@.len()
                <= usize::MAX,
        ensures
            final(self).size() == old(self).size(),
            (final(self).pending(), cut_of(r)) == cut_step(
                old(self).pending(),
                old(self).size(),
                feed_of(polled),
            ),
            polled matches Some(Polled::Failed(e)) ==> r == ChunkStep::Failed(e),
            r matches ChunkStep::Frame(frame) ==> frozen(frame).len() <= old(self).size() && (old(
                self,
            ).size() > 0 ==> frozen(frame).len() > 0),
    {
        match polled {
            None => {},
            Some(Polled::Pending) => {
                return ChunkStep::Pending;
            },
            Some(Polled::Failed(e)) => {
                return ChunkStep::Failed(e);
            },
            Some(Polled::Ended) => {
                if buffer_is_empty(&self.buf) {
                    return ChunkStep::Ended;
                }
                let len = buffer_len(&self.buf);
                let at = if len <= self.chunk_size {
                    len
                } else {
                    self.chunk_size
                };
                let last = buffer_split_to(&mut self.buf, at);
                assert(buffered(last) =~= if len <= self.chunk_size {
                    old(self).pending()
                } else {
                    old(self).pending().take(at as int)
                });
                assert(len <= self.chunk_size ==> self.pending() =~= Seq::<u8>::empty());
                return ChunkStep::Frame(freeze(last));
            },
            Some(Polled::Data(bytes)) => {
                buffer_extend(&mut self.buf, bytes.as_slice());
            },
        }
        if buffer_len(&self.buf) < self.chunk_size {
            ChunkStep::AskSource
        } else {
            let frame = buffer_split_to(&mut self.buf, self.chunk_size);
            ChunkStep::Frame(freeze(frame))
        }
    }
}

/// What the source gave, as far as the cutting goes.
pub open spec fn feed_of<E>(polled: Option<Polled<E>>) -> Option<Feed> {
    match polled {
        None => None,
        Some(Polled::Pending) => Some(Feed::Pending),
        Some(Polled::Data(bytes)) => Some(Feed::Data(bytes@)),
        Some(Polled::Failed(_)) => Some(Feed::Failed),
        Some(Polled::Ended) => Some(Feed::Ended),
    }
}

/// What a step comes to, as far as the cutting goes.
pub open spec fn cut_of<E>(step: ChunkStep<E>) -> Cut {
    match step {
        ChunkStep::Frame(frame) => Cut::Frame(frozen(frame)),
        ChunkStep::Failed(_) => Cut::Failed,
        ChunkStep::Ended => Cut::Ended,
        ChunkStep::Pending => Cut::Pending,
        ChunkStep::AskSource => Cut::AskSource,
    }
}

/// The bytes of each piece in a list.
pub open spec fn pieces_view(pieces: Seq<Vec<u8>>) -> Seq<Seq<u8>> {
    pieces.map_values(|p: Vec<u8>| p@)
}

fn copy_of(bytes: &Vec<u8>) -> (r: Vec<u8>)
    ensures
        r@ == bytes@,
{
    let mut r: Vec<u8> = Vec::new();
    let mut i: usize = 0;
    while i < bytes.len()
        invariant
            i <= bytes.len(),
            r@ == bytes@.take(i as int),
        decreases bytes.len() - i,
    {
        r.push(bytes[i]);
        i = i + 1;
    }
    r
}

/// Runs a chunker over a source that gives `pieces` one after the other and then
/// ends, and collects the frames that leave it: the frames that all the bytes of the
/// source, taken together, are cut into. How the source split its bytes into pieces
/// makes no difference. The run is that of [`frames_from`], for which the same is
/// shown of every source, whatever its size.
pub fn frames_of(pieces: &Vec<Vec<u8>>, chunk_size: usize) -> (r: Vec<Bytes>)
    requires
        0 < chunk_size,
        2 * chunk_size <= isize::MAX,
        concat(pieces_view(pieces@)).len() <= usize::MAX,
    ensures
        frames_view(r@) == chunks(concat(pieces_view(pieces@)), chunk_size as nat),
        frames_view(r@) == frames_from(
            Seq::empty(),
            chunk_size as nat,
            reads_of(pieces_view(pieces@)),
        ),
{
    let mut chunker = FileChunker::new(chunk_size);
    let mut out: Vec<Bytes> = Vec::new();
    let ghost source = pieces_view(pieces@);
    let mut i: usize = 0;
    while i < pieces.len()
        invariant
            0 < chunk_size,
            i <= pieces.len(),
            source == pieces_view(pieces@),
            concat(source).len() <= usize::MAX,
            chunker.size() == chunk_size,
            chunker.pending().len() < chunk_size,
            all_full(frames_view(out@), chunk_size as nat),
            concat(frames_view(out@)) + chunker.pending() == concat(source.take(i as int)),
        decreases pieces.len() - i,
    {
        let piece = copy_of(&pieces[i]);
        let ghost held = chunker.pending() + piece@;
        proof {
            assert(source.take(i + 1) =~= source.take(i as int).push(piece@));
            lemma_concat_push(source.take(i as int), piece@);
            lemma_prefix_len(source, i + 1);
        }
        let mut step = chunker.poll_next::<()>(Some(Polled::Data(piece)));
        let ghost mut held = held;
        loop
            invariant_except_break
                0 < chunk_size,
                chunker.size() == chunk_size,
                all_full(frames_view(out@), chunk_size as nat),
                (chunker.pending(), cut_of(step)) == cut_ready(held, chunk_size as nat),
                concat(frames_view(out@)) + held == concat(source.take(i + 1)),
            ensures
                chunker.size() == chunk_size,
                chunker.pending().len() < chunk_size,
                all_full(frames_view(out@), chunk_size as nat),
                concat(frames_view(out@)) + chunker.pending() == concat(source.take(i + 1)),
            decreases held.len(),
        {
            match step {
                ChunkStep::Frame(frame) => {
                    let ghost before = frames_view(out@);
                    out.push(frame);
                    proof {
                        let bytes = held.take(chunk_size as int);
                        assert(frames_view(out@) =~= before.push(bytes));
                        lemma_concat_push(before, bytes);
                        held = held.skip(chunk_size as int);
                    }
                    step = chunker.poll_next::<()>(None);
                },
                _ => {
                    break;
                },
            }
        }
        i = i + 1;
    }
    assert(source.take(i as int) =~= source);
    let ghost tail = chunker.pending();
    let ghost full = frames_view(out@);
    match chunker.poll_next::<()>(Some(Polled::Ended)) {
        ChunkStep::Frame(frame) => {
            out.push(frame);
        },
        _ => {},
    }
    proof {
        lemma_chunks_unique(full, tail, chunk_size as nat);
        lemma_reads_of(source);
        lemma_frames_from(Seq::empty(), chunk_size as nat, reads_of(source));
        assert(Seq::<u8>::empty() + concat(source) =~= concat(source));
    }
    out
}

/// The first pieces of a source hold no more bytes than all of them.
proof fn lemma_prefix_len(parts: Seq<Seq<u8>>, n: int)
    requires
        0 <= n <= parts.len(),
    ensures
        concat(parts.take(n)).len() <= concat(parts).len(),
    decreases parts.len() - n,
{
    if n < parts.len() {
        lemma_prefix_len(parts, n + 1);
        assert(parts.take(n + 1) =~= parts.take(n).push(parts[n]));
        lemma_concat_push(parts.take(n), parts[n]);
    } else {
        assert(parts.take(n) =~= parts);
    }
}

} // verus!
