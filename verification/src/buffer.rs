//! Trusted interface to `bytes::BytesMut`, the growable byte buffer that the
//! incremental frame decoder consumes from the front.
//!
//! The buffer's contents are named by the uninterpreted function
//! [`buf_bytes`]; every wrapper below states what the wrapped `bytes` call
//! does to that sequence, as the crate's source shows.

use vstd::prelude::*;

verus! {

#[verifier::external_type_specification]
#[verifier::external_body]
pub struct ExBytesMut(bytes::BytesMut);

/// The bytes the buffer currently holds, front to back.
pub uninterp spec fn buf_bytes(b: bytes::BytesMut) -> Seq<u8>;

/// Relies on `BytesMut::len`: the number of bytes the buffer holds.
#[verifier::external_body]
pub(crate) fn buf_len(b: &bytes::BytesMut) -> (r: usize)
    ensures
        r == buf_bytes(*b).len(),
{
    b.len()
}

/// Relies on the `[u8]` view of `BytesMut` (its `Deref` impl): reads the byte
/// at index `i`.
#[verifier::external_body]
pub(crate) fn buf_get(b: &bytes::BytesMut, i: usize) -> (r: u8)
    requires
        i < buf_bytes(*b).len(),
    ensures
        r == buf_bytes(*b)[i as int],
{
    b[i]
}

/// Relies on `bytes::Buf::advance` for `BytesMut`: discards the first `n`
/// bytes.  The call panics when `n` exceeds the length, so that is required
/// away.
#[verifier::external_body]
pub(crate) fn buf_advance(b: &mut bytes::BytesMut, n: usize)
    requires
        n <= buf_bytes(*old(b)).len(),
    ensures
        buf_bytes(*final(b)) == buf_bytes(*old(b)).skip(n as int),
{
    bytes::Buf::advance(b, n)
}

/// Relies on `BytesMut::clear`: empties the buffer.
#[verifier::external_body]
pub(crate) fn buf_clear(b: &mut bytes::BytesMut)
    ensures
        buf_bytes(*final(b)) == Seq::<u8>::empty(),
{
    b.clear()
}

/// Relies on the `[u8]` view of `BytesMut` and `<[u8]>::to_vec`: copies the
/// bytes in `start..end` out of the buffer.
#[verifier::external_body]
pub(crate) fn buf_slice_to_vec(b: &bytes::BytesMut, start: usize, end: usize) -> (r: Vec<u8>)
    requires
        start <= end <= buf_bytes(*b).len(),
    ensures
        r@ == buf_bytes(*b).subrange(start as int, end as int),
{
    b[start..end].to_vec()
}

} // verus!
