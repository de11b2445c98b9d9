use rust_comm::codec::decode_message;
use rust_comm::codec::decode_type;
use rust_comm::codec::encode_message;
use rust_comm::codec::encode_type;
use rust_comm::message::Message;
use rust_comm::message::MessageType;

fn message(t: MessageType, payload: &[u8]) -> Message {
    let mut m = Message::new();
    m.set_type(t);
    m.set_content(payload.to_vec());
    m
}

#[test]
fn type_codes_round_trip() {
    let types = [
        MessageType::Data,
        MessageType::End,
        MessageType::Quit,
        MessageType::Shutdown,
    ];
    for t in types {
        assert_eq!(decode_type(encode_type(t)), Some(t));
    }
    assert_eq!(decode_type(4), None);
    assert_eq!(decode_type(255), None);
}

#[test]
fn encoded_frame_has_the_exact_layout() {
    let b = encode_message(&message(MessageType::Data, b"hi"));
    assert_eq!(b.as_slice(), &[0u8, 0, 0, 0, 2, b'h', b'i']);
    let quit = encode_message(&message(MessageType::Quit, b""));
    assert_eq!(quit.as_slice(), &[2u8, 0, 0, 0, 0]);
}

#[test]
fn long_payload_length_is_big_endian() {
    let payload = vec![7u8; 0x0102];
    let b = encode_message(&message(MessageType::End, &payload));
    assert_eq!(&b[0..5], &[1u8, 0, 0, 1, 2]);
    assert_eq!(b.len(), 5 + 0x0102);
}

#[test]
fn frames_round_trip() {
    let cases = [
        message(MessageType::Data, b"a reply please"),
        message(MessageType::End, b""),
        message(MessageType::Quit, b"ignored payload"),
        message(MessageType::Shutdown, &[0u8, 1, 2, 255]),
    ];
    for m in cases {
        let decoded = decode_message(&encode_message(&m)).unwrap();
        assert_eq!(decoded.get_type(), m.get_type());
        assert_eq!(decoded.get_content(), m.get_content());
    }
}

#[test]
fn short_frames_are_malformed() {
    assert!(decode_message(&vec![]).is_none());
    assert!(decode_message(&vec![0u8, 0, 0, 0]).is_none());
}

#[test]
fn unknown_discriminant_code_is_malformed() {
    assert!(decode_message(&vec![9u8, 0, 0, 0, 0]).is_none());
}

#[test]
fn wrong_length_field_is_malformed() {
    assert!(decode_message(&vec![0u8, 0, 0, 0, 3, b'h', b'i']).is_none());
    assert!(decode_message(&vec![0u8, 0, 0, 0, 1, b'h', b'i']).is_none());
}
