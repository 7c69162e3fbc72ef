//! Byte buffers of the `bytes` crate.
use bytes::{BufMut, BytesMut};
use vstd::prelude::*;

verus! {

/// The growable byte buffer of the `bytes` crate.
#[verifier::external_type_specification]
#[verifier::external_body]
pub struct ExBytesMut(BytesMut);

/// The bytes that a buffer holds.
pub uninterp spec fn content(buf: BytesMut) -> Seq<u8>;

/// The trusted contract of `BytesMut::with_capacity`: the buffer is empty.
/// The allocation fails for a capacity beyond `isize::MAX`.
pub assume_specification[ BytesMut::with_capacity ](capacity: usize) -> (r: BytesMut)
    requires
        capacity <= isize::MAX,
    ensures
        content(r) == Seq::<u8>::empty(),
;

/// The trusted contract of `BytesMut::len`: the number of bytes held.
pub assume_specification[ BytesMut::len ](buf: &BytesMut) -> (r: usize)
    ensures
        r == content(*buf).len(),
;

/// The trusted contract of `BytesMut::extend_from_slice`: the bytes are
/// appended. It panics where the new length overflows.
pub assume_specification[ BytesMut::extend_from_slice ](buf: &mut BytesMut, extend: &[u8])
    requires
        content(*old(buf)).len() + extend@.len() <= usize::MAX,
    ensures
        content(*final(buf)) == content(*old(buf)) + extend@,
;

/// The trusted contract of `BytesMut::split_off`: the bytes from `at` on move
/// into the result, the bytes before it stay.
pub assume_specification[ BytesMut::split_off ](buf: &mut BytesMut, at: usize) -> (r: BytesMut)
    requires
        at <= content(*old(buf)).len(),
    ensures
        content(*final(buf)) == content(*old(buf)).take(at as int),
        content(r) == content(*old(buf)).skip(at as int),
;

/// The trusted contract of `BytesMut::split_to`: the bytes before `at` move
/// into the result, the bytes from it on stay. It panics where `at` lies
/// beyond the length.
pub assume_specification[ BytesMut::split_to ](buf: &mut BytesMut, at: usize) -> (r: BytesMut)
    requires
        at <= content(*old(buf)).len(),
    ensures
        content(r) == content(*old(buf)).take(at as int),
        content(*final(buf)) == content(*old(buf)).skip(at as int),
;

/// Calls `BufMut::put_u8` on a buffer: the byte is appended. It panics where
/// the new length overflows.
#[verifier::external_body]
pub(crate) fn put_byte(buf: &mut BytesMut, byte: u8)
    requires
        content(*old(buf)).len() < usize::MAX,
    ensures
        content(*final(buf)) == content(*old(buf)).push(byte),
{
    buf.put_u8(byte)
}

/// Borrows the bytes of a buffer, as its `AsRef` does.
#[verifier::external_body]
pub(crate) fn as_slice(buf: &BytesMut) -> (r: &[u8])
    ensures
        r@ == content(*buf),
{
    buf.as_ref()
}

} // verus!
