//! The basic sensor record: a 15-byte fixed-width snapshot of bumpers,
//! wheel drops, cliffs, encoders, motor PWM, buttons, charger and battery
//! state.

use vstd::prelude::*;

use crate::error::DecodeError;
use crate::wire::{u16_le, u16_from_le};

verus! {

/// Valid bits of a [`SidesCentral`] bitset.
pub const SIDES_CENTRAL_MASK: u8 = 0x07;

/// Valid bits of a [`Sides`] bitset.
pub const SIDES_MASK: u8 = 0x03;

/// Valid bits of a [`Button`] bitset.
pub const BUTTON_MASK: u8 = 0x07;

/// Bitset over the right, central and left sides, as reported by the bumper
/// and cliff sensors.
#[derive(Clone, Copy, Debug, PartialEq, Eq, Structural)]
pub struct SidesCentral {
    pub bits: u8,
}

impl SidesCentral {
    /// Right side, bit 0.
    pub fn right() -> (r: Self)
        ensures
            r.bits == 0x01,
    {
        SidesCentral { bits: 0x01 }
    }

    /// Central, bit 1.
    pub fn central() -> (r: Self)
        ensures
            r.bits == 0x02,
    {
        SidesCentral { bits: 0x02 }
    }

    /// Left side, bit 2.
    pub fn left() -> (r: Self)
        ensures
            r.bits == 0x04,
    {
        SidesCentral { bits: 0x04 }
    }

    /// No side set.
    pub fn empty() -> (r: Self)
        ensures
            r.bits == 0,
    {
        SidesCentral { bits: 0 }
    }

    /// Keeps the recognized bits of a raw byte and silently drops the rest.
    pub fn from_bits_truncate(v: u8) -> (r: Self)
        ensures
            r.bits == v & SIDES_CENTRAL_MASK,
    {
        SidesCentral { bits: v & SIDES_CENTRAL_MASK }
    }
}

/// Bitset over the right and left sides, as reported by the wheel-drop and
/// wheel-overcurrent sensors.
#[derive(Clone, Copy, Debug, PartialEq, Eq, Structural)]
pub struct Sides {
    pub bits: u8,
}

impl Sides {
    /// Right side, bit 0.
    pub fn right() -> (r: Self)
        ensures
            r.bits == 0x01,
    {
        Sides { bits: 0x01 }
    }

    /// Left side, bit 1.
    pub fn left() -> (r: Self)
        ensures
            r.bits == 0x02,
    {
        Sides { bits: 0x02 }
    }

    /// No side set.
    pub fn empty() -> (r: Self)
        ensures
            r.bits == 0,
    {
        Sides { bits: 0 }
    }

    /// Keeps the recognized bits of a raw byte and silently drops the rest.
    pub fn from_bits_truncate(v: u8) -> (r: Self)
        ensures
            r.bits == v & SIDES_MASK,
    {
        Sides { bits: v & SIDES_MASK }
    }
}

/// Bitset of the three hardware buttons.
#[derive(Clone, Copy, Debug, PartialEq, Eq, Structural)]
pub struct Button {
    pub bits: u8,
}

impl Button {
    /// Button 0, bit 0.
    pub fn b0() -> (r: Self)
        ensures
            r.bits == 0x01,
    {
        Button { bits: 0x01 }
    }

    /// Button 1, bit 1.
    pub fn b1() -> (r: Self)
        ensures
            r.bits == 0x02,
    {
        Button { bits: 0x02 }
    }

    /// Button 2, bit 2.
    pub fn b2() -> (r: Self)
        ensures
            r.bits == 0x04,
    {
        Button { bits: 0x04 }
    }

    /// No button pressed.
    pub fn empty() -> (r: Self)
        ensures
            r.bits == 0,
    {
        Button { bits: 0 }
    }

    /// Keeps the recognized bits of a raw byte and silently drops the rest.
    pub fn from_bits_truncate(v: u8) -> (r: Self)
        ensures
            r.bits == v & BUTTON_MASK,
    {
        Button { bits: v & BUTTON_MASK }
    }
}

/// Charger state, restricted to the discrete wire values 0, 2, 6, 18, 22.
#[derive(Clone, Copy, Debug, PartialEq, Eq, Structural)]
pub enum Charger {
    Discharging,
    DockingCharged,
    DockingCharging,
    AdapterCharged,
    AdapterCharging,
}

/// The charger state a wire byte denotes, `None` outside the discrete set.
pub open spec fn spec_charger_from_byte(v: u8) -> Option<Charger> {
    if v == 0 {
        Some(Charger::Discharging)
    } else if v == 2 {
        Some(Charger::DockingCharged)
    } else if v == 6 {
        Some(Charger::DockingCharging)
    } else if v == 18 {
        Some(Charger::AdapterCharged)
    } else if v == 22 {
        Some(Charger::AdapterCharging)
    } else {
        None
    }
}

impl Charger {
    /// Decodes the charger-state wire byte; any value outside the discrete
    /// set is rejected.
    pub fn from_byte(v: u8) -> (r: Result<Self, DecodeError>)
        ensures
            r == match spec_charger_from_byte(v) {
                Some(c) => Result::<Charger, DecodeError>::Ok(c),
                None => Result::<Charger, DecodeError>::Err(DecodeError::InvalidCharger { value: v }),
            },
    {
        match v {
            0 => Ok(Charger::Discharging),
            2 => Ok(Charger::DockingCharged),
            6 => Ok(Charger::DockingCharging),
            18 => Ok(Charger::AdapterCharged),
            22 => Ok(Charger::AdapterCharging),
            _ => Err(DecodeError::InvalidCharger { value: v }),
        }
    }
}

/// One 15-byte basic sensor record.
///
/// The battery field keeps the raw wire byte, which counts tenths of a volt.
#[derive(Clone, Copy, Debug, PartialEq, Eq, Structural)]
pub struct BasicSensorData {
    pub timestamp: u16,
    pub bumper: SidesCentral,
    pub wheel_drop: Sides,
    pub cliff: SidesCentral,
    pub left_encoder: u16,
    pub right_encoder: u16,
    pub left_pwm: i8,
    pub right_pwm: i8,
    pub button: Button,
    pub charger: Charger,
    /// Battery level in tenths of a volt, as on the wire.
    pub battery_tenths: u8,
    pub overcurrent_wheel: Sides,
}

/// What decoding a basic-sensor slice yields: the record for an exact
/// 15-byte slice with a recognized charger byte, the matching error
/// otherwise.
pub open spec fn spec_parse_basic_sensor(d: Seq<u8>) -> Result<BasicSensorData, DecodeError> {
    if d.len() != 15 {
        Err(DecodeError::InvalidLength { expected_len: 15, actual_len: d.len() as usize })
    } else {
        match spec_charger_from_byte(d[12]) {
            None => Err(DecodeError::InvalidCharger { value: d[12] }),
            Some(charger) => Ok(BasicSensorData {
                timestamp: u16_le(d[0], d[1]),
                bumper: SidesCentral { bits: d[2] & SIDES_CENTRAL_MASK },
                wheel_drop: Sides { bits: d[3] & SIDES_MASK },
                cliff: SidesCentral { bits: d[4] & SIDES_CENTRAL_MASK },
                left_encoder: u16_le(d[5], d[6]),
                right_encoder: u16_le(d[7], d[8]),
                left_pwm: d[9] as i8,
                right_pwm: d[10] as i8,
                button: Button { bits: d[11] & BUTTON_MASK },
                charger: charger,
                battery_tenths: d[13],
                overcurrent_wheel: Sides { bits: d[14] & SIDES_MASK },
            }),
        }
    }
}

impl BasicSensorData {
    /// Decodes the fixed 15-byte record; any other slice length is a
    /// length-mismatch error.
    pub fn try_from_bytes(data: &[u8]) -> (r: Result<Self, DecodeError>)
        ensures
            r == spec_parse_basic_sensor(data@),
    {
        if data.len() != 15 {
            return Err(DecodeError::InvalidLength { expected_len: 15, actual_len: data.len() });
        }
        let charger = match Charger::from_byte(data[12]) {
            Ok(c) => c,
            Err(e) => {
                return Err(e);
            },
        };
        Ok(BasicSensorData {
            timestamp: u16_from_le(data[0], data[1]),
            bumper: SidesCentral::from_bits_truncate(data[2]),
            wheel_drop: Sides::from_bits_truncate(data[3]),
            cliff: SidesCentral::from_bits_truncate(data[4]),
            left_encoder: u16_from_le(data[5], data[6]),
            right_encoder: u16_from_le(data[7], data[8]),
            left_pwm: data[9] as i8,
            right_pwm: data[10] as i8,
            button: Button::from_bits_truncate(data[11]),
            charger: charger,
            battery_tenths: data[13],
            overcurrent_wheel: Sides::from_bits_truncate(data[14]),
        })
    }
}

} // verus!
