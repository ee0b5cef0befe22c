use baselink::base_control::BaseControl;
use baselink::basic_sensor_data::{BasicSensorData, Button, Charger, Sides, SidesCentral};
use baselink::docking_ir::{DockingIr, IrSignal};
use baselink::error::DecodeError;
use baselink::feedback::{Feedback, FeedbackId};
use baselink::feedback_decoder::FeedbackDecoder;
use baselink::inertial_sensor::InertialSensor;
use baselink::protocol::ByteStream;
use baselink::session::{drain_frames, handle_read, stop_frame, SessionStatus};
use baselink::sound::Sound;
use baselink::wire::{i16_from_le, u16_from_le};
use bytes::BytesMut;

/// Wraps a payload in a frame with the correct checksum.
fn frame(payload: &[u8]) -> BytesMut {
    let mut b = BytesMut::new();
    b.extend_from_slice(&[0xaa, 0x55, payload.len() as u8]);
    b.extend_from_slice(payload);
    let cs = b[2..].iter().fold(0u8, |acc, x| acc ^ *x);
    b.extend_from_slice(&[cs]);
    b
}

#[test]
fn docking_ir_example_vector() {
    // Checksum over [0x05, 0x03, 0x03, 0x01, 0x00, 0x00] is 0x04.
    let mut buf = BytesMut::new();
    buf.extend_from_slice(&[0xaa, 0x55, 0x05, 0x03, 0x03, 0x01, 0x00, 0x00, 0x04]);
    let mut decoder = FeedbackDecoder;
    let feedback = decoder.decode(&mut buf).unwrap().unwrap();
    assert_eq!(
        feedback.docking_ir,
        Some(DockingIr {
            right: IrSignal::near_left(),
            center: IrSignal::empty(),
            left: IrSignal::empty(),
        })
    );
    assert_eq!(feedback.basic_sensor_data, None);
    assert_eq!(feedback.inertial_sensor, None);
}

#[test]
fn trailing_garbage_stays_buffered() {
    let mut buf = frame(&[0x03, 0x03, 0x01, 0x00, 0x00]);
    buf.extend_from_slice(&[0x00, 0x55, 0x00]);
    let mut decoder = FeedbackDecoder;
    let result = decoder.decode(&mut buf).unwrap();
    assert!(result.is_some());
    assert_eq!(&buf[..], &[0x00, 0x55, 0x00]);
}

#[test]
fn resume_after_two_byte_split() {
    let whole = frame(&[0x03, 0x03, 0x01, 0x00, 0x00]);
    let mut buf = BytesMut::new();
    buf.extend_from_slice(&whole[..2]);
    let mut decoder = FeedbackDecoder;
    assert_eq!(decoder.decode(&mut buf).unwrap(), None);
    buf.extend_from_slice(&whole[2..]);
    let result = decoder.decode(&mut buf).unwrap();
    assert!(result.is_some());
    assert!(buf.is_empty());
}

#[test]
fn corrupt_checksum_is_rejected() {
    let mut buf = frame(&[0x03, 0x03, 0x01, 0x00, 0x00]);
    let last = buf.len() - 1;
    let good = buf[last];
    buf[last] = good ^ 0xff;
    let mut decoder = FeedbackDecoder;
    let result = decoder.decode(&mut buf);
    assert_eq!(
        result,
        Err(DecodeError::ChecksumMismatch {
            got: good ^ 0xff,
            expected: good,
        })
    );
    // The malformed frame's whole span is dropped.
    assert!(buf.is_empty());
}

#[test]
fn unknown_id_is_skipped() {
    let mut buf = frame(&[0x02, 0x01, 0xff]);
    let mut decoder = FeedbackDecoder;
    let feedback = decoder.decode(&mut buf).unwrap().unwrap();
    assert_eq!(feedback, Feedback::new());
}

#[test]
fn recognized_but_unkept_id_is_skipped() {
    // Cliff (id 5) is recognized yet carries no field of the aggregate.
    let mut buf = frame(&[0x05, 0x02, 0xaa, 0xbb]);
    let mut decoder = FeedbackDecoder;
    let feedback = decoder.decode(&mut buf).unwrap().unwrap();
    assert_eq!(feedback, Feedback::new());
}

#[test]
fn sub_payload_overrun_is_an_error() {
    let mut buf = frame(&[0x03]);
    let mut decoder = FeedbackDecoder;
    assert_eq!(
        decoder.decode(&mut buf),
        Err(DecodeError::SubPayloadOverrun)
    );
}

#[test]
fn wrong_record_length_is_an_error() {
    // Inertial sensor (id 4) must carry exactly 7 bytes.
    let mut buf = frame(&[0x04, 0x03, 0x00, 0x00, 0x00]);
    let mut decoder = FeedbackDecoder;
    assert_eq!(
        decoder.decode(&mut buf),
        Err(DecodeError::InvalidLength {
            expected_len: 7,
            actual_len: 3,
        })
    );
}

#[test]
fn invalid_charger_byte_is_an_error() {
    let mut data = [0u8; 15];
    data[12] = 5;
    let mut payload = vec![0x01, 15];
    payload.extend_from_slice(&data);
    let mut buf = frame(&payload);
    let mut decoder = FeedbackDecoder;
    assert_eq!(
        decoder.decode(&mut buf),
        Err(DecodeError::InvalidCharger { value: 5 })
    );
}

#[test]
fn basic_sensor_record_decodes_exactly() {
    let data = [
        0x34, 0x12, // timestamp 0x1234
        0x05, // bumper: right | left
        0x03, // wheel drop: right | left
        0x02, // cliff: central
        0xe8, 0x03, // left encoder 1000
        0xd0, 0x07, // right encoder 2000
        0x7f, // left pwm 127
        0x80, // right pwm -128
        0x01, // button 0
        0x06, // charger: docking, charging
        0xa0, // battery 16.0 V
        0x01, // overcurrent: right
    ];
    let mut payload = vec![0x01, 15];
    payload.extend_from_slice(&data);
    let mut buf = frame(&payload);
    let mut decoder = FeedbackDecoder;
    let feedback = decoder.decode(&mut buf).unwrap().unwrap();
    assert_eq!(
        feedback.basic_sensor_data,
        Some(BasicSensorData {
            timestamp: 0x1234,
            bumper: SidesCentral { bits: 0x05 },
            wheel_drop: Sides { bits: 0x03 },
            cliff: SidesCentral { bits: 0x02 },
            left_encoder: 1000,
            right_encoder: 2000,
            left_pwm: 127,
            right_pwm: -128,
            button: Button { bits: 0x01 },
            charger: Charger::DockingCharging,
            battery_tenths: 160,
            overcurrent_wheel: Sides { bits: 0x01 },
        })
    );
    assert_eq!(feedback.docking_ir, None);
    assert_eq!(feedback.inertial_sensor, None);
}

#[test]
fn inertial_record_decodes_exactly() {
    let mut buf = frame(&[0x04, 0x07, 0x10, 0x27, 0xf0, 0xd8, 0x00, 0x00, 0x00]);
    let mut decoder = FeedbackDecoder;
    let feedback = decoder.decode(&mut buf).unwrap().unwrap();
    assert_eq!(
        feedback.inertial_sensor,
        Some(InertialSensor {
            angle_hundredths: 10000,
            angle_rate_hundredths: -10000,
        })
    );
}

#[test]
fn bitset_truncation_drops_unknown_bits() {
    assert_eq!(IrSignal::from_bits_truncate(0xff).bits, 0x3f);
    assert_eq!(SidesCentral::from_bits_truncate(0xff).bits, 0x07);
    assert_eq!(Sides::from_bits_truncate(0xff).bits, 0x03);
    assert_eq!(Button::from_bits_truncate(0xff).bits, 0x07);
}

#[test]
fn charger_discrete_set() {
    assert_eq!(Charger::from_byte(0), Ok(Charger::Discharging));
    assert_eq!(Charger::from_byte(2), Ok(Charger::DockingCharged));
    assert_eq!(Charger::from_byte(6), Ok(Charger::DockingCharging));
    assert_eq!(Charger::from_byte(18), Ok(Charger::AdapterCharged));
    assert_eq!(Charger::from_byte(22), Ok(Charger::AdapterCharging));
    assert_eq!(
        Charger::from_byte(1),
        Err(DecodeError::InvalidCharger { value: 1 })
    );
}

#[test]
fn feedback_id_bytes() {
    assert_eq!(FeedbackId::from_byte(1), Some(FeedbackId::BasicSensorData));
    assert_eq!(FeedbackId::from_byte(3), Some(FeedbackId::DockingIR));
    assert_eq!(FeedbackId::from_byte(4), Some(FeedbackId::InertialSensor));
    assert_eq!(FeedbackId::from_byte(2), None);
}

#[test]
fn little_endian_helpers() {
    assert_eq!(u16_from_le(0x34, 0x12), 0x1234);
    assert_eq!(i16_from_le(0x9c, 0xff), -100);
    assert_eq!(i16_from_le(0x64, 0x00), 100);
}

#[test]
fn sound_silence_ignores_duration() {
    for duration in [0u64, 100, 255, 300, 100_000] {
        let bytes = ByteStream::builder()
            .subpayload(Sound::new(0, duration))
            .to_bytes();
        assert_eq!(bytes[5], 0);
        assert_eq!(bytes[6], 0);
    }
}

#[test]
fn sound_note_value_and_duration_truncation() {
    // 4_000_000 / (11 * 440) rounds to 826 = 0x033a; 1000 ms wraps to 232.
    let bytes = ByteStream::builder()
        .subpayload(Sound::new(440, 1000))
        .to_bytes();
    assert_eq!(bytes, vec![0xaa, 0x55, 0x05, 0x03, 0x03, 0x3a, 0x03, 0xe8, 0xd4]);
}

#[test]
fn encode_then_decode_sound_round_trip() {
    // A tone's sub-payload is tagged 3, the docking-IR id, so decoding the
    // rendered frame fills exactly the docking-IR field.
    let bytes = ByteStream::builder()
        .subpayload(Sound::new(0, 100))
        .to_bytes();
    let mut buf = BytesMut::new();
    buf.extend_from_slice(&bytes);
    let mut decoder = FeedbackDecoder;
    let feedback = decoder.decode(&mut buf).unwrap().unwrap();
    assert_eq!(
        feedback.docking_ir,
        Some(DockingIr {
            right: IrSignal::empty(),
            center: IrSignal::empty(),
            left: IrSignal::from_bits_truncate(100),
        })
    );
    assert_eq!(feedback.basic_sensor_data, None);
    assert_eq!(feedback.inertial_sensor, None);
    assert!(buf.is_empty());
}

#[test]
fn multiple_subpayloads_render_in_order() {
    let bytes = ByteStream::builder()
        .subpayload(BaseControl::new(1, 2))
        .subpayload(Sound::new(0, 10))
        .to_bytes();
    assert_eq!(
        bytes,
        vec![
            0xaa, 0x55, 0x0b, 0x01, 0x04, 0x01, 0x00, 0x02, 0x00, 0x03, 0x03, 0x00, 0x00, 0x0a,
            0x07
        ]
    );
}

#[test]
fn decode_eof_flushes_buffered_frame() {
    let mut buf = frame(&[0x03, 0x03, 0x01, 0x00, 0x00]);
    let mut decoder = FeedbackDecoder;
    assert!(decoder.decode_eof(&mut buf).unwrap().is_some());
    assert_eq!(decoder.decode_eof(&mut buf).unwrap(), None);
}

#[test]
fn decode_eof_rejects_half_frame() {
    let mut buf = BytesMut::new();
    buf.extend_from_slice(&[0xaa, 0x55, 0x05, 0x03]);
    let mut decoder = FeedbackDecoder;
    assert_eq!(
        decoder.decode_eof(&mut buf),
        Err(DecodeError::TrailingBytes)
    );
}

#[test]
fn drain_collects_frames_until_error() {
    let mut buf = frame(&[0x03, 0x03, 0x01, 0x00, 0x00]);
    let mut corrupt = frame(&[0x02, 0x01, 0xff]);
    let last = corrupt.len() - 1;
    corrupt[last] ^= 0x10;
    buf.extend_from_slice(&corrupt);
    let mut decoder = FeedbackDecoder;
    let (frames, err) = drain_frames(&mut decoder, &mut buf);
    assert_eq!(frames.len(), 1);
    assert!(matches!(err, Some(DecodeError::ChecksumMismatch { .. })));
}

#[test]
fn handle_read_keeps_session_open() {
    let mut buf = frame(&[0x03, 0x03, 0x01, 0x00, 0x00]);
    buf.extend_from_slice(&frame(&[0x02, 0x01, 0x00]));
    let size = buf.len();
    let mut decoder = FeedbackDecoder;
    let (frames, status) = handle_read(&mut decoder, &mut buf, size);
    assert_eq!(frames.len(), 2);
    assert_eq!(status, Ok(SessionStatus::Open));
    assert!(buf.is_empty());
}

#[test]
fn handle_read_closes_on_empty_read() {
    let mut buf = frame(&[0x03, 0x03, 0x01, 0x00, 0x00]);
    let mut decoder = FeedbackDecoder;
    let (frames, status) = handle_read(&mut decoder, &mut buf, 0);
    assert_eq!(frames.len(), 1);
    assert_eq!(status, Ok(SessionStatus::Closed));
}

#[test]
fn handle_read_reports_truncated_stream() {
    let mut buf = BytesMut::new();
    buf.extend_from_slice(&[0xaa, 0x55, 0x05]);
    let mut decoder = FeedbackDecoder;
    let (frames, status) = handle_read(&mut decoder, &mut buf, 0);
    assert!(frames.is_empty());
    assert_eq!(status, Err(DecodeError::TrailingBytes));
}

#[test]
fn stop_frame_drives_nowhere() {
    assert_eq!(
        stop_frame(),
        vec![0xaa, 0x55, 0x06, 0x01, 0x04, 0x00, 0x00, 0x00, 0x00, 0x03]
    );
}
