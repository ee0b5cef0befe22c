//! The tone command: a 16-bit note value derived from a frequency, plus a
//! duration in milliseconds.
//!
//! The device takes a timer reload value, not a frequency: the note value
//! is `1 / (frequency * 2.75e-6)` rounded to the nearest integer, the
//! constant being the device's fixed timer period in seconds.  Written
//! over integers, that is `4_000_000 / (11 * frequency)` rounded half up.
//! A frequency of zero encodes as note value zero, silence.
//!
//! The duration travels as a single byte and is truncated to its low eight
//! bits; tones longer than 255 ms wrap around.  That truncation is the
//! device protocol's own behavior, kept deliberately.

use vstd::prelude::*;

use crate::protocol::{CommandIds, ToSubPayload};

verus! {

/// The 16-bit note value a frequency encodes to: zero for silence, else
/// `4_000_000 / (11 * frequency)` rounded half up and saturated to 16 bits.
pub open spec fn spec_note_value(frequency_hz: u32) -> u16 {
    if frequency_hz == 0 {
        0u16
    } else {
        let q = (8_000_000 + 11 * frequency_hz) / (22 * frequency_hz);
        if q > 65535 {
            65535u16
        } else {
            q as u16
        }
    }
}

/// The tagged encoding of a tone command: id 3, three data bytes, the note
/// value little-endian then the duration's low byte.
pub open spec fn spec_sound_subpayload(frequency_hz: u32, duration_ms: u64) -> Seq<u8> {
    seq![
        3u8,
        3u8,
        (spec_note_value(frequency_hz) & 0xff) as u8,
        (spec_note_value(frequency_hz) >> 8) as u8,
        (duration_ms % 256) as u8,
    ]
}

/// Play a tone of `frequency_hz` for `duration_ms` milliseconds.
#[derive(Clone, Copy, Debug, PartialEq, Eq, Structural)]
pub struct Sound {
    pub frequency_hz: u32,
    pub duration_ms: u64,
}

impl Sound {
    /// A tone command, boxed for the frame builder.
    pub fn new(frequency_hz: u32, duration_ms: u64) -> (r: Box<Self>)
        ensures
            r.frequency_hz == frequency_hz && r.duration_ms == duration_ms,
    {
        Box::new(Sound { frequency_hz, duration_ms })
    }
}

impl ToSubPayload for Sound {
    open spec fn subpayload_spec(&self) -> Seq<u8> {
        spec_sound_subpayload(self.frequency_hz, self.duration_ms)
    }

    fn to_subpayload(&self) -> (r: Vec<u8>)
        ensures
            r@ == self.subpayload_spec(),
            // Frequency zero is silence: both note bytes are zero whatever
            // the requested duration.
            self.frequency_hz == 0 ==> r@[2] == 0 && r@[3] == 0,
    {
        let note: u16 = if self.frequency_hz == 0 {
            0
        } else {
            let num: u64 = 8_000_000u64 + 11u64 * (self.frequency_hz as u64);
            let den: u64 = 22u64 * (self.frequency_hz as u64);
            let q: u64 = num / den;
            if q > 65535 {
                65535
            } else {
                q as u16
            }
        };
        let mut r: Vec<u8> = Vec::new();
        r.push(CommandIds::Sound.as_byte());
        r.push(3);
        r.push((note & 0xff) as u8);
        r.push((note >> 8) as u8);
        r.push((self.duration_ms % 256) as u8);
        proof {
            assert(r@ =~= self.subpayload_spec());
            assert((0u16 & 0xff) as u8 == 0 && (0u16 >> 8) as u8 == 0) by (bit_vector);
        }
        r
    }
}

} // verus!
