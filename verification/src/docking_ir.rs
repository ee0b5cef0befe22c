//! The docking infrared record: one bitset byte per receiver (right,
//! center, left), each reporting which docking-beacon signals it sees.

use vstd::prelude::*;

use crate::error::DecodeError;

verus! {

/// Valid bits of an [`IrSignal`] bitset.
pub const IR_SIGNAL_MASK: u8 = 0x3F;

/// Bitset of docking-beacon signals seen by one infrared receiver: the
/// {near, far} x {left, center, right} signal space.
#[derive(Clone, Copy, Debug, PartialEq, Eq, Structural)]
pub struct IrSignal {
    pub bits: u8,
}

impl IrSignal {
    /// Near left signal, bit 0.
    pub fn near_left() -> (r: Self)
        ensures
            r.bits == 0x01,
    {
        IrSignal { bits: 0x01 }
    }

    /// Near center signal, bit 1.
    pub fn near_center() -> (r: Self)
        ensures
            r.bits == 0x02,
    {
        IrSignal { bits: 0x02 }
    }

    /// Near right signal, bit 2.
    pub fn near_right() -> (r: Self)
        ensures
            r.bits == 0x04,
    {
        IrSignal { bits: 0x04 }
    }

    /// Far left signal, bit 3.
    pub fn far_left() -> (r: Self)
        ensures
            r.bits == 0x08,
    {
        IrSignal { bits: 0x08 }
    }

    /// Far center signal, bit 4.
    pub fn far_center() -> (r: Self)
        ensures
            r.bits == 0x10,
    {
        IrSignal { bits: 0x10 }
    }

    /// Far right signal, bit 5.
    pub fn far_right() -> (r: Self)
        ensures
            r.bits == 0x20,
    {
        IrSignal { bits: 0x20 }
    }

    /// No signal seen.
    pub fn empty() -> (r: Self)
        ensures
            r.bits == 0,
    {
        IrSignal { bits: 0 }
    }

    /// Keeps the recognized bits of a raw byte and silently drops the rest.
    pub fn from_bits_truncate(v: u8) -> (r: Self)
        ensures
            r.bits == v & IR_SIGNAL_MASK,
    {
        IrSignal { bits: v & IR_SIGNAL_MASK }
    }
}

/// One 3-byte docking infrared record.
#[derive(Clone, Copy, Debug, PartialEq, Eq, Structural)]
pub struct DockingIr {
    pub right: IrSignal,
    pub center: IrSignal,
    pub left: IrSignal,
}

/// What decoding a docking-infrared slice yields: the record for an exact
/// 3-byte slice, a length-mismatch error otherwise.
pub open spec fn spec_parse_docking_ir(d: Seq<u8>) -> Result<DockingIr, DecodeError> {
    if d.len() != 3 {
        Err(DecodeError::InvalidLength { expected_len: 3, actual_len: d.len() as usize })
    } else {
        Ok(DockingIr {
            right: IrSignal { bits: d[0] & IR_SIGNAL_MASK },
            center: IrSignal { bits: d[1] & IR_SIGNAL_MASK },
            left: IrSignal { bits: d[2] & IR_SIGNAL_MASK },
        })
    }
}

impl DockingIr {
    /// Decodes the fixed 3-byte record; any other slice length is a
    /// length-mismatch error.
    pub fn try_from_bytes(data: &[u8]) -> (r: Result<Self, DecodeError>)
        ensures
            r == spec_parse_docking_ir(data@),
    {
        if data.len() != 3 {
            return Err(DecodeError::InvalidLength { expected_len: 3, actual_len: data.len() });
        }
        Ok(DockingIr {
            right: IrSignal::from_bits_truncate(data[0]),
            center: IrSignal::from_bits_truncate(data[1]),
            left: IrSignal::from_bits_truncate(data[2]),
        })
    }
}

impl Default for DockingIr {
    /// All three receivers see nothing.
    fn default() -> (r: Self)
        ensures
            r.right.bits == 0 && r.center.bits == 0 && r.left.bits == 0,
    {
        DockingIr { right: IrSignal::empty(), center: IrSignal::empty(), left: IrSignal::empty() }
    }
}

} // verus!
