//! Framed binary protocol for a serial-linked mobile-robot base.
//!
//! The wire format in both directions is
//! `[0xAA, 0x55, len, payload .., checksum]`, where `checksum` is the XOR of
//! the length byte and every payload byte.  Inbound frames carry tagged,
//! length-prefixed sensor records; outbound frames carry tagged commands.

pub mod base_control;
pub mod basic_sensor_data;
pub mod buffer;
pub mod docking_ir;
pub mod error;
pub mod feedback;
pub mod feedback_decoder;
pub mod inertial_sensor;
pub mod laws;
pub mod protocol;
pub mod session;
pub mod sound;
pub mod wire;
