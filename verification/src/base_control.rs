//! The drive command: signed 16-bit speed and turn radius, little-endian.

use vstd::prelude::*;

use crate::protocol::{CommandIds, ToSubPayload};

verus! {

/// Drive the base at `speed` along an arc of `radius`.
#[derive(Clone, Copy, Debug, PartialEq, Eq, Structural)]
pub struct BaseControl {
    pub speed: i16,
    pub radius: i16,
}

/// The tagged encoding of a drive command: id 1, four data bytes, speed
/// then radius, each little-endian.
pub open spec fn spec_base_control_subpayload(speed: i16, radius: i16) -> Seq<u8> {
    seq![
        1u8,
        4u8,
        (speed as u16 & 0xff) as u8,
        ((speed as u16) >> 8) as u8,
        (radius as u16 & 0xff) as u8,
        ((radius as u16) >> 8) as u8,
    ]
}

impl BaseControl {
    /// A drive command, boxed for the frame builder.
    pub fn new(speed: i16, radius: i16) -> (r: Box<Self>)
        ensures
            r.speed == speed && r.radius == radius,
    {
        Box::new(BaseControl { speed, radius })
    }
}

impl ToSubPayload for BaseControl {
    open spec fn subpayload_spec(&self) -> Seq<u8> {
        spec_base_control_subpayload(self.speed, self.radius)
    }

    fn to_subpayload(&self) -> (r: Vec<u8>)
        ensures
            r@ == self.subpayload_spec(),
    {
        let speed = self.speed as u16;
        let radius = self.radius as u16;
        let mut r: Vec<u8> = Vec::new();
        r.push(CommandIds::BaseControl.as_byte());
        r.push(4);
        r.push((speed & 0xff) as u8);
        r.push((speed >> 8) as u8);
        r.push((radius & 0xff) as u8);
        r.push((radius >> 8) as u8);
        proof {
            assert(r@ =~= self.subpayload_spec());
        }
        r
    }
}

} // verus!
