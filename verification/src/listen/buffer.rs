//! The byte buffers of the `bytes` crate, as far as this crate uses them.

use vstd::prelude::*;
use bytes::{Bytes, BytesMut};

verus! {

/// `bytes::BytesMut`: a buffer of bytes that can grow at its end and be split at its
/// front.
#[verifier::external_type_specification]
#[verifier::external_body]
pub struct ExBytesMut(BytesMut);

/// `bytes::Bytes`: a run of bytes that no longer changes.
#[verifier::external_type_specification]
#[verifier::external_body]
pub struct ExBytes(Bytes);

/// The bytes that a buffer holds, in order.
pub uninterp spec fn buffered(buffer: BytesMut) -> Seq<u8>;

/// The bytes that a frozen run holds, in order.
pub uninterp spec fn frozen(bytes: Bytes) -> Seq<u8>;

/// The bytes of each run in a list.
pub open spec fn frames_view(frames: Seq<Bytes>) -> Seq<Seq<u8>> {
    frames.map_values(|f: Bytes| frozen(f))
}

/// `BytesMut::with_capacity`: a buffer that holds nothing. The capacity is one that
/// `Vec::with_capacity` accepts.
#[verifier::external_body]
pub(crate) fn new_buffer(capacity: usize) -> (r: BytesMut)
    requires
        capacity <= isize::MAX,
    ensures
        buffered(r) == Seq::<u8>::empty(),
{
    BytesMut::with_capacity(capacity)
}

/// `BytesMut::len`: how many bytes the buffer holds.
#[verifier::external_body]
pub(crate) fn buffer_len(buffer: &BytesMut) -> (r: usize)
    ensures
        r == buffered(*buffer).len(),
{
    buffer.len()
}

/// `BytesMut::is_empty`: whether the buffer holds nothing.
#[verifier::external_body]
pub(crate) fn buffer_is_empty(buffer: &BytesMut) -> (r: bool)
    ensures
        r == (buffered(*buffer).len() == 0),
{
    buffer.is_empty()
}

/// `BytesMut::extend_from_slice`: the bytes are appended to what the buffer holds. The
/// new length is one that fits.
#[verifier::external_body]
pub(crate) fn buffer_extend(buffer: &mut BytesMut, bytes: &[u8])
    requires
        buffered(*old(buffer)).len() + bytes@.len() <= usize::MAX,
    ensures
        buffered(*final(buffer)) == buffered(*old(buffer)) + bytes@,
{
    buffer.extend_from_slice(bytes)
}

/// `BytesMut::split_to`: the first `at` bytes leave the buffer and are returned; the
/// rest stays. `at` is within what the buffer holds.
#[verifier::external_body]
pub(crate) fn buffer_split_to(buffer: &mut BytesMut, at: usize) -> (r: BytesMut)
    requires
        at <= buffered(*old(buffer)).len(),
    ensures
        buffered(r) == buffered(*old(buffer)).take(at as int),
        buffered(*final(buffer)) == buffered(*old(buffer)).skip(at as int),
{
    buffer.split_to(at)
}

/// `BytesMut::freeze`: the same bytes, as a run that no longer changes.
#[verifier::external_body]
pub(crate) fn freeze(buffer: BytesMut) -> (r: Bytes)
    ensures
        frozen(r) == buffered(buffer),
{
    buffer.freeze()
}

/// The bytes of a run as a vector: `Bytes::as_ref`, copied.
#[verifier::external_body]
pub(crate) fn frozen_to_vec(bytes: &Bytes) -> (r: Vec<u8>)
    ensures
        r@ == frozen(*bytes),
{
    bytes.as_ref().to_vec()
}

} // verus!
