use tcp_console::{decode_envelope, encode_envelope, ensure_newline, weak_text, Error, MAX_PAYLOAD_LEN};

#[test]
fn newline_is_appended_when_missing() {
    assert_eq!(ensure_newline("abc".to_string()), "abc\n");
}

#[test]
fn newline_is_kept_when_present() {
    assert_eq!(ensure_newline("abc\n".to_string()), "abc\n");
}

#[test]
fn empty_text_becomes_a_line_feed() {
    assert_eq!(ensure_newline(String::new()), "\n");
}

#[test]
fn weak_text_trims_surrounding_white_space() {
    assert_eq!(weak_text(b"  status \r\n"), "status");
}

#[test]
fn weak_text_replaces_invalid_utf8() {
    assert_eq!(weak_text(&[b'a', 0xff, b'b']), "a\u{FFFD}b");
}

#[test]
fn weak_text_of_nothing_is_empty() {
    assert_eq!(weak_text(&[]), "");
}

#[test]
fn envelope_bytes_are_id_then_length_then_payload() {
    let bytes = encode_envelope(1, vec![7, 8, 9]).unwrap();
    assert_eq!(bytes, vec![1, 0, 0, 0, 0, 0, 0, 0, 3, 7, 8, 9]);
}

#[test]
fn envelope_length_uses_leb128() {
    let bytes = encode_envelope(0x0102, vec![5; 200]).unwrap();
    assert_eq!(&bytes[..10], &[2, 1, 0, 0, 0, 0, 0, 0, 0xc8, 0x01]);
    assert_eq!(bytes.len(), 210);
}

#[test]
fn envelope_round_trip() {
    let payload = bcs::to_bytes("hi").unwrap();
    let bytes = encode_envelope(u64::MAX, payload.clone()).unwrap();
    let e = decode_envelope(&bytes).unwrap();
    assert_eq!(e.service_id, u64::MAX);
    assert_eq!(e.payload, payload);
}

#[test]
fn empty_payload_round_trip() {
    let bytes = encode_envelope(3, Vec::new()).unwrap();
    assert_eq!(bytes.len(), 9);
    let e = decode_envelope(&bytes).unwrap();
    assert_eq!(e.service_id, 3);
    assert!(e.payload.is_empty());
}

#[test]
fn text_is_not_an_envelope() {
    assert!(decode_envelope(b"status").is_none());
    assert!(decode_envelope(b"").is_none());
}

#[test]
fn trailing_bytes_are_not_an_envelope() {
    let mut bytes = encode_envelope(1, vec![1]).unwrap();
    bytes.push(0);
    assert!(decode_envelope(&bytes).is_none());
}

#[test]
fn truncated_envelope_is_rejected() {
    let bytes = encode_envelope(1, vec![1, 2]).unwrap();
    assert!(decode_envelope(&bytes[..bytes.len() - 1]).is_none());
}

#[test]
fn non_canonical_length_is_rejected() {
    let bytes = vec![1, 0, 0, 0, 0, 0, 0, 0, 0x81, 0x00, 9];
    assert!(decode_envelope(&bytes).is_none());
}

#[test]
fn oversized_payload_is_refused() {
    let payload = vec![0u8; MAX_PAYLOAD_LEN + 1];
    match encode_envelope(1, payload) {
        Err(Error::PayloadTooLong(n)) => assert_eq!(n, MAX_PAYLOAD_LEN + 1),
        _ => panic!("expected PayloadTooLong"),
    }
}
