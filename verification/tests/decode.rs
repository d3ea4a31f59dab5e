use broadcast_relay::text::decode_message;

#[test]
fn decode_trims_surrounding_whitespace() {
    assert_eq!(decode_message(b"  hello \n"), "hello");
}

#[test]
fn decode_replaces_invalid_utf8() {
    assert_eq!(decode_message(&[0xff, b'a']), "\u{FFFD}a");
}

#[test]
fn decode_of_no_bytes_is_empty() {
    assert_eq!(decode_message(b""), "");
}

#[test]
fn decode_of_only_whitespace_is_empty() {
    assert_eq!(decode_message(b" \t\r\n"), "");
}

#[test]
fn decode_keeps_embedded_newlines() {
    // One read's bytes are one message: no line framing is imposed.
    assert_eq!(decode_message(b"one\ntwo"), "one\ntwo");
}
