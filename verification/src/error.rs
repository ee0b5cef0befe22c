//! Errors of the frame decoder.
//!
//! Frame-integrity failures are fatal to the current decode attempt; the
//! caller owns the resynchronization policy beyond the header rescan that
//! every decode call performs.

use vstd::prelude::*;

verus! {

/// Why a decode attempt failed.
#[derive(Clone, Copy, Debug, PartialEq, Eq, Structural)]
pub enum DecodeError {
    /// The trailing checksum byte does not equal the XOR of the length byte
    /// and the payload bytes.
    ChecksumMismatch { got: u8, expected: u8 },
    /// A sub-payload's declared length runs past the end of the payload.
    SubPayloadOverrun,
    /// A known sub-payload id arrived with other than its fixed record
    /// length.
    InvalidLength { expected_len: usize, actual_len: usize },
    /// The charger-state byte is outside its discrete enumeration.
    InvalidCharger { value: u8 },
    /// The stream ended with an incomplete frame still buffered.
    TrailingBytes,
}

} // verus!
