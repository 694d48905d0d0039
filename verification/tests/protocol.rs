use timba::protocol::{
    decode_payload, encode_payload, Acknowledgment, ProtocolError, MAX_ACKNOWLEDGMENT, MAX_PAYLOAD,
};

#[test]
fn payload_round_trip_keeps_the_path() {
    let bytes = encode_payload("/tmp/a.png");
    assert_eq!(bytes, b"/tmp/a.png".to_vec());
    assert_eq!(decode_payload(&bytes), Ok(String::from("/tmp/a.png")));
}

#[test]
fn payload_round_trip_keeps_text_beyond_ascii() {
    let path = "/home/zoë/图片/猫.gif";
    let bytes = encode_payload(path);
    assert_eq!(bytes, path.as_bytes().to_vec());
    assert_eq!(decode_payload(&bytes), Ok(String::from(path)));
}

#[test]
fn empty_payload_is_refused() {
    assert_eq!(decode_payload(&[]), Err(ProtocolError::Empty));
}

#[test]
fn payload_at_the_cap_is_accepted() {
    let bytes = vec![b'a'; MAX_PAYLOAD];
    let expected = "a".repeat(4096);
    assert_eq!(decode_payload(&bytes), Ok(expected));
}

#[test]
fn payload_above_the_cap_is_refused_not_truncated() {
    let bytes = vec![b'a'; MAX_PAYLOAD + 1];
    assert_eq!(decode_payload(&bytes), Err(ProtocolError::Oversized));
}

#[test]
fn oversized_is_reported_before_bad_text() {
    let bytes = vec![0xffu8; MAX_PAYLOAD + 1];
    assert_eq!(decode_payload(&bytes), Err(ProtocolError::Oversized));
}

#[test]
fn payload_that_is_not_utf8_is_refused() {
    assert_eq!(decode_payload(&[0x2f, 0x74, 0xff, 0xfe]), Err(ProtocolError::NotText));
    assert_eq!(decode_payload(&[0xc3]), Err(ProtocolError::NotText));
    assert_eq!(decode_payload(&[0xed, 0xa0, 0x80]), Err(ProtocolError::NotText));
}

#[test]
fn payload_is_decoded_not_echoed() {
    let decoded = decode_payload(&[0x2f, 0xc3, 0xa9]);
    assert_eq!(decoded, Ok(String::from("/é")));
    assert_eq!(decoded.unwrap().chars().count(), 2);
}

#[test]
fn acknowledgments_have_their_wire_form() {
    assert_eq!(Acknowledgment::Accepted.to_bytes(), b"OK".to_vec());
    assert_eq!(Acknowledgment::Rejected.to_bytes(), b"ERR".to_vec());
    assert!(Acknowledgment::Accepted.to_bytes().len() <= MAX_ACKNOWLEDGMENT);
    assert!(Acknowledgment::Rejected.to_bytes().len() <= MAX_ACKNOWLEDGMENT);
}

#[test]
fn acknowledgments_are_read_back() {
    assert_eq!(Acknowledgment::parse(b"OK"), Some(Acknowledgment::Accepted));
    assert_eq!(Acknowledgment::parse(b"ERR"), Some(Acknowledgment::Rejected));
    assert_eq!(
        Acknowledgment::parse(&Acknowledgment::Accepted.to_bytes()),
        Some(Acknowledgment::Accepted)
    );
    assert_eq!(
        Acknowledgment::parse(&Acknowledgment::Rejected.to_bytes()),
        Some(Acknowledgment::Rejected)
    );
}

#[test]
fn anything_else_is_no_acknowledgment() {
    assert_eq!(Acknowledgment::parse(b""), None);
    assert_eq!(Acknowledgment::parse(b"O"), None);
    assert_eq!(Acknowledgment::parse(b"ok"), None);
    assert_eq!(Acknowledgment::parse(b"OK\n"), None);
    assert_eq!(Acknowledgment::parse(b"ER"), None);
    assert_eq!(Acknowledgment::parse(b"ERRR"), None);
    assert_eq!(Acknowledgment::parse(b"???"), None);
}
