//! Wire-level building blocks shared by the frame encoder and decoder:
//! the header bytes, the XOR checksum, and little-endian 16-bit helpers.

use vstd::prelude::*;

verus! {

/// First byte of the two-byte frame header.
pub const HEADER_0: u8 = 0xAA;

/// Second byte of the two-byte frame header.
pub const HEADER_1: u8 = 0x55;

/// XOR fold of a byte sequence, the protocol's checksum primitive.
pub open spec fn xor_fold(s: Seq<u8>) -> u8
    decreases s.len(),
{
    if s.len() == 0 {
        0u8
    } else {
        xor_fold(s.drop_last()) ^ s.last()
    }
}

/// The unsigned 16-bit value two little-endian wire bytes denote.
pub open spec fn u16_le(lo: u8, hi: u8) -> u16 {
    (lo + hi * 256) as u16
}

/// The signed 16-bit value two little-endian wire bytes denote.
pub open spec fn i16_le(lo: u8, hi: u8) -> i16 {
    u16_le(lo, hi) as i16
}

/// Reads an unsigned 16-bit little-endian value.
pub fn u16_from_le(lo: u8, hi: u8) -> (r: u16)
    ensures
        r == u16_le(lo, hi),
{
    (lo as u16) + (hi as u16) * 256
}

/// Reads a signed 16-bit little-endian value.
pub fn i16_from_le(lo: u8, hi: u8) -> (r: i16)
    ensures
        r == i16_le(lo, hi),
{
    u16_from_le(lo, hi) as i16
}

} // verus!
