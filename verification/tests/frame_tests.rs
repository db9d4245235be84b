use exonum_handshake::error::NoiseError;
use exonum_handshake::frame::HandshakeRawMessage;

fn round_trip(payload: Vec<u8>, max_len: u32) {
    let mut wire: Vec<u8> = Vec::new();
    let msg = HandshakeRawMessage(payload.clone());
    msg.write(&mut wire);
    assert_eq!(wire.len(), 4 + payload.len());
    let read = HandshakeRawMessage::read(&wire, 0, max_len).unwrap().unwrap();
    assert_eq!(read.0 .0, payload);
    assert_eq!(read.1, wire.len());
}

#[test]
fn frame_round_trip_zero_payload() {
    round_trip(Vec::new(), 1024);
}

#[test]
fn frame_round_trip_single_byte() {
    round_trip(vec![42u8], 1024);
}

#[test]
fn frame_round_trip_64_bytes() {
    round_trip(vec![7u8; 64], 1024);
}

#[test]
fn frame_round_trip_exactly_max() {
    round_trip(vec![9u8; 1024], 1024);
}

#[test]
fn every_size_up_to_max_round_trips_and_the_next_fails() {
    let max: u32 = 64;
    for size in 0..=64usize {
        round_trip(vec![size as u8; size], max);
    }
    let mut wire: Vec<u8> = Vec::new();
    HandshakeRawMessage(vec![0u8; 65]).write(&mut wire);
    match HandshakeRawMessage::read(&wire, 0, max) {
        Err(NoiseError::WrongMessageLength(n)) => assert_eq!(n, 65),
        other => panic!("expected a wrong-length rejection, got {:?}", other),
    }
}

#[test]
fn frame_above_max_is_rejected() {
    let mut wire: Vec<u8> = Vec::new();
    let msg = HandshakeRawMessage(vec![1u8; 1025]);
    msg.write(&mut wire);
    match HandshakeRawMessage::read(&wire, 0, 1024) {
        Err(NoiseError::WrongMessageLength(n)) => assert_eq!(n, 1025),
        other => panic!("expected a wrong-length rejection, got {:?}", other),
    }
}

#[test]
fn oversized_declaration_is_rejected_without_a_body() {
    // Only the length prefix arrives, declaring more than the maximum:
    // the read must fail at once rather than wait for the body.
    let wire: Vec<u8> = vec![0x01, 0x04, 0x00, 0x00];  // 1025, little endian
    match HandshakeRawMessage::read(&wire, 0, 1024) {
        Err(NoiseError::WrongMessageLength(n)) => assert_eq!(n, 1025),
        other => panic!("expected a wrong-length rejection, got {:?}", other),
    }
}

#[test]
fn incomplete_header_waits() {
    let wire: Vec<u8> = vec![0x10, 0x00];
    assert!(HandshakeRawMessage::read(&wire, 0, 1024).unwrap().is_none());
}

#[test]
fn incomplete_body_waits() {
    let wire: Vec<u8> = vec![0x05, 0x00, 0x00, 0x00, 1, 2, 3];
    assert!(HandshakeRawMessage::read(&wire, 0, 1024).unwrap().is_none());
}

#[test]
fn frame_layout_is_little_endian_length_then_body() {
    let mut wire: Vec<u8> = Vec::new();
    HandshakeRawMessage(vec![1, 2, 3]).write(&mut wire);
    assert_eq!(wire, vec![3, 0, 0, 0, 1, 2, 3]);
    let mut wire: Vec<u8> = Vec::new();
    HandshakeRawMessage(vec![0xAB; 258]).write(&mut wire);
    assert_eq!(&wire[..4], &[0x02, 0x01, 0x00, 0x00]);
}

#[test]
fn frames_read_back_to_back() {
    let mut wire: Vec<u8> = Vec::new();
    HandshakeRawMessage(vec![1, 2, 3]).write(&mut wire);
    HandshakeRawMessage(vec![4, 5]).write(&mut wire);
    let (first, next) = HandshakeRawMessage::read(&wire, 0, 16).unwrap().unwrap();
    assert_eq!(first.0, vec![1, 2, 3]);
    let (second, end) = HandshakeRawMessage::read(&wire, next, 16).unwrap().unwrap();
    assert_eq!(second.0, vec![4, 5]);
    assert_eq!(end, wire.len());
}
