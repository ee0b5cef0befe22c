use baselink::base_control::BaseControl;
use baselink::docking_ir::{DockingIr, IrSignal};
use baselink::feedback::Feedback;
use baselink::feedback_decoder::FeedbackDecoder;
use baselink::protocol::ByteStream;
use bytes::BytesMut;

fn create_docking_ir(right: IrSignal) -> (BytesMut, Feedback) {
    // [aa, 55, 05, 03, 03, xx, 00, 00, 00]
    //  ------  --  --  --  ----------  --
    //  header  len id  len payload     chk
    let mut bytes = BytesMut::new();
    bytes.extend_from_slice(&[0xaa, 0x55, 0x05, 0x03, 0x03, 0x00, 0x00, 0x00, 0x00]);
    bytes[5] = right.bits;
    let docking_ir = DockingIr {
        right,
        center: IrSignal::empty(),
        left: IrSignal::empty(),
    };
    let checksum = bytes[2..8].iter().fold(0u8, |acc, x| acc ^ *x);
    bytes[8] = checksum;

    let mut feedback = Feedback::new();
    feedback.docking_ir = Some(docking_ir);
    (bytes, feedback)
}

#[test]
fn test_no_header() {
    let mut decoder = FeedbackDecoder;
    let mut buf = BytesMut::new();
    buf.extend_from_slice(&[0x00, 0x00, 0x00]);
    let result = decoder.decode(&mut buf).unwrap();
    assert_eq!(result, None);
}

#[test]
fn test_full_frame() {
    let (mut bytes, expected) = create_docking_ir(IrSignal::near_left());
    let mut decoder = FeedbackDecoder;
    let result = decoder.decode(&mut bytes).unwrap();
    assert_eq!(result, Some(expected));
}

#[test]
fn test_full_frame_garbage_before_frame() {
    let (frame_bytes, expected) = create_docking_ir(IrSignal::near_left());
    let mut bytes = BytesMut::new();
    bytes.extend_from_slice(&[0x00, 0x55, 0x00]);
    bytes.extend_from_slice(&frame_bytes);
    let mut decoder = FeedbackDecoder;
    let result = decoder.decode(&mut bytes).unwrap();
    assert_eq!(result, Some(expected));
}

#[test]
fn test_full_frame_garbage_after_frame() {
    let (mut bytes, expected) = create_docking_ir(IrSignal::near_left());
    bytes.extend_from_slice(&[0x00, 0x55, 0x00]);
    let mut decoder = FeedbackDecoder;
    let result = decoder.decode(&mut bytes).unwrap();
    assert_eq!(result, Some(expected));
}

#[test]
fn test_two_half_frames() {
    let (mut bytes, expected) = create_docking_ir(IrSignal::near_left());
    let second_half = bytes.split_off(5);
    let mut decoder = FeedbackDecoder;
    let result = decoder.decode(&mut bytes).unwrap();
    assert_eq!(result, None);

    bytes.extend_from_slice(&second_half);
    let result = decoder.decode(&mut bytes).unwrap();
    assert_eq!(result, Some(expected));
}

#[test]
fn test_two_full_frames() {
    let (bytes_first, expected_first) = create_docking_ir(IrSignal::near_left());
    let (bytes_second, expected_second) = create_docking_ir(IrSignal::near_right());
    let mut bytes = BytesMut::new();
    bytes.extend_from_slice(&bytes_first);
    bytes.extend_from_slice(&bytes_second);
    let mut decoder = FeedbackDecoder;
    let result = decoder.decode(&mut bytes).unwrap();
    assert_eq!(result, Some(expected_first));
    let result = decoder.decode(&mut bytes).unwrap();
    assert_eq!(result, Some(expected_second));
    let result = decoder.decode(&mut bytes).unwrap();
    assert_eq!(result, None);
}

#[test]
fn test_to_bytes() {
    let payload = ByteStream::builder()
        .subpayload(BaseControl::new(100, -100))
        .to_bytes();
    assert_eq!(
        payload,
        vec![0xAA, 0x55, 0x06, 0x01, 0x04, 0x64, 0x00, 0x9C, 0xFF, 0x04]
    );
}
