//! The accumulation buffer, kept in a `bytes::BytesMut`.
//!
//! Nothing in this module is proved: each function states what the `bytes`
//! crate does, and the rest of the library is verified against these
//! statements.

use bytes::Buf;
use bytes::BytesMut;
use vstd::prelude::*;

verus! {

#[verifier::external_type_specification]
#[verifier::external_body]
pub struct ExBytesMut(BytesMut);

/// The bytes that a `BytesMut` holds, first to last.
pub uninterp spec fn buffered(buf: BytesMut) -> Seq<u8>;

/// The value of four bytes read as a big-endian unsigned number.
pub open spec fn be_u32(bytes: Seq<u8>) -> int
    recommends
        bytes.len() == 4,
{
    bytes[0] * 0x100_0000 + bytes[1] * 0x1_0000 + bytes[2] * 0x100 + bytes[3]
}

/// `BytesMut::with_capacity`: a buffer that holds no bytes yet.  The call
/// panics on a capacity that no allocation can have.
#[verifier::external_body]
pub(crate) fn buffer_with_capacity(capacity: usize) -> (buf: BytesMut)
    requires
        capacity <= isize::MAX,
    ensures
        buffered(buf) == Seq::<u8>::empty(),
{
    BytesMut::with_capacity(capacity)
}

/// `BytesMut::len`: the number of bytes held.
#[verifier::external_body]
pub(crate) fn buffer_len(buf: &BytesMut) -> (n: usize)
    ensures
        n == buffered(*buf).len(),
{
    buf.len()
}

/// The `Deref` of `BytesMut`: the bytes held, as a slice.
#[verifier::external_body]
pub(crate) fn buffer_bytes(buf: &BytesMut) -> (bytes: &[u8])
    ensures
        bytes@ == buffered(*buf),
{
    &buf[..]
}

/// `BytesMut::extend_from_slice`: the given bytes are appended after those
/// already held.  The call panics only where the capacity that is needed
/// overflows.
#[verifier::external_body]
pub(crate) fn buffer_extend(buf: &mut BytesMut, extend: &[u8])
    requires
        buffered(*old(buf)).len() + extend@.len() <= isize::MAX,
    ensures
        buffered(*final(buf)) == buffered(*old(buf)) + extend@,
    no_unwind
{
    buf.extend_from_slice(extend)
}

/// `Buf::advance` on a `BytesMut`: the first `cnt` bytes are dropped.  The
/// call panics when fewer than `cnt` bytes are held.
#[verifier::external_body]
pub(crate) fn buffer_advance(buf: &mut BytesMut, cnt: usize)
    requires
        cnt <= buffered(*old(buf)).len(),
    ensures
        buffered(*final(buf)) == buffered(*old(buf)).skip(cnt as int),
    no_unwind
{
    buf.advance(cnt)
}

/// `Buf::get_u32` on a byte slice: its first four bytes as a big-endian
/// number.  The call panics on a slice of fewer than four bytes.
#[verifier::external_body]
pub(crate) fn read_u32(bytes: &[u8]) -> (n: u32)
    requires
        bytes@.len() >= 4,
    ensures
        n == be_u32(bytes@.take(4)),
{
    let mut cursor = bytes;
    cursor.get_u32()
}

} // verus!
