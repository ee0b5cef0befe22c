//! The inertial sensor record: heading angle and angular rate, each a
//! little-endian signed 16-bit count of hundredths.

use vstd::prelude::*;

use crate::error::DecodeError;
use crate::wire::{i16_le, i16_from_le};

verus! {

/// One 7-byte inertial record.
///
/// Both fields keep the raw signed wire value, which counts hundredths of a
/// degree (angle) and hundredths of a degree per second (angle rate).
#[derive(Clone, Copy, Debug, PartialEq, Eq, Structural)]
pub struct InertialSensor {
    /// Heading angle in hundredths of a degree.
    pub angle_hundredths: i16,
    /// Angular rate in hundredths of a degree per second.
    pub angle_rate_hundredths: i16,
}

/// What decoding an inertial slice yields: the record for an exact 7-byte
/// slice, a length-mismatch error otherwise.
pub open spec fn spec_parse_inertial_sensor(d: Seq<u8>) -> Result<InertialSensor, DecodeError> {
    if d.len() != 7 {
        Err(DecodeError::InvalidLength { expected_len: 7, actual_len: d.len() as usize })
    } else {
        Ok(InertialSensor {
            angle_hundredths: i16_le(d[0], d[1]),
            angle_rate_hundredths: i16_le(d[2], d[3]),
        })
    }
}

impl InertialSensor {
    /// Decodes the fixed 7-byte record; any other slice length is a
    /// length-mismatch error.
    pub fn try_from_bytes(data: &[u8]) -> (r: Result<Self, DecodeError>)
        ensures
            r == spec_parse_inertial_sensor(data@),
    {
        if data.len() != 7 {
            return Err(DecodeError::InvalidLength { expected_len: 7, actual_len: data.len() });
        }
        Ok(InertialSensor {
            angle_hundredths: i16_from_le(data[0], data[1]),
            angle_rate_hundredths: i16_from_le(data[2], data[3]),
        })
    }
}

} // verus!
