//! What the library believes of the byte buffers it writes frames into.
//!
//! `BytesMut` and `Bytes` are opaque here. Their contents have a name each,
//! and every contract below is stated over those names; none of it is proved.
//! As with `Vec`, a buffer is taken to find the memory that it asks for.

use bytes::{Bytes, BytesMut};
use vstd::prelude::*;

verus! {

#[verifier::external_type_specification]
#[verifier::external_body]
pub struct ExBytesMut(BytesMut);

#[verifier::external_type_specification]
#[verifier::external_body]
pub struct ExBytes(Bytes);

/// The bytes that a growable buffer holds, first to last.
pub uninterp spec fn buffered(buf: BytesMut) -> Seq<u8>;

/// The bytes that a frozen buffer holds, first to last.
pub uninterp spec fn frozen(buf: Bytes) -> Seq<u8>;

/// `BytesMut::new`: a buffer that holds nothing.
pub assume_specification[ BytesMut::new ]() -> (buf: BytesMut)
    ensures
        buffered(buf) == Seq::<u8>::empty(),
;

/// `BytesMut::len`: the number of bytes held.
pub assume_specification[ BytesMut::len ](buf: &BytesMut) -> (n: usize)
    ensures
        n == buffered(*buf).len(),
;

/// `BytesMut::truncate`: keeps the first `len` bytes; does nothing where the
/// buffer holds no more than that.
pub assume_specification[ BytesMut::truncate ](buf: &mut BytesMut, len: usize)
    ensures
        buffered(*final(buf)) == if len <= buffered(*old(buf)).len() {
            buffered(*old(buf)).subrange(0, len as int)
        } else {
            buffered(*old(buf))
        },
;

/// `BytesMut::split`: hands out all that is held and leaves the buffer empty.
pub assume_specification[ BytesMut::split ](buf: &mut BytesMut) -> (taken: BytesMut)
    ensures
        buffered(taken) == buffered(*old(buf)),
        buffered(*final(buf)) == Seq::<u8>::empty(),
;

/// `BytesMut::split_off`: hands out the bytes from `at` on and keeps those
/// before it. It panics where `at` is beyond the capacity, which is never
/// less than the length: hence the precondition.
pub assume_specification[ BytesMut::split_off ](buf: &mut BytesMut, at: usize) -> (taken: BytesMut)
    requires
        at <= buffered(*old(buf)).len(),
    ensures
        buffered(*final(buf)) == buffered(*old(buf)).subrange(0, at as int),
        buffered(taken) == buffered(*old(buf)).subrange(
            at as int,
            buffered(*old(buf)).len() as int,
        ),
;

/// `BytesMut::freeze`: the same bytes, no longer writable.
pub assume_specification[ BytesMut::freeze ](buf: BytesMut) -> (bytes: Bytes)
    ensures
        frozen(bytes) == buffered(buf),
;

/// `BytesMut::extend_from_slice`, given what another buffer holds: appends
/// it.
#[verifier::external_body]
pub(crate) fn put_bytes(buf: &mut BytesMut, bytes: &BytesMut)
    ensures
        buffered(*final(buf)) == buffered(*old(buf)) + buffered(*bytes),
{
    buf.extend_from_slice(bytes)
}

} // verus!
