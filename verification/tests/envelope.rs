use dewey_lib::services::envelope::Envelope;

#[test]
fn an_envelope_is_written_as_its_record() {
    let envelope = Envelope { nonce: "AAAA".to_string(), ciphertext: "BBBB====".to_string() };
    assert_eq!(envelope.to_text(), "{\"nonce\":\"AAAA\",\"ciphertext\":\"BBBB====\"}");
}

#[test]
fn a_record_is_read_back() {
    let envelope = Envelope::parse("{\"nonce\":\"AAAA\",\"ciphertext\":\"BB+/==\"}").unwrap();
    assert_eq!(envelope.nonce, "AAAA");
    assert_eq!(envelope.ciphertext, "BB+/==");
    let empty = Envelope::parse("{\"nonce\":\"\",\"ciphertext\":\"\"}").unwrap();
    assert_eq!(empty.nonce, "");
    assert_eq!(empty.ciphertext, "");
}

#[test]
fn writing_and_reading_round_trip() {
    let text = Envelope { nonce: "n0nce".to_string(), ciphertext: "c1pher".to_string() }.to_text();
    let back = Envelope::parse(&text).unwrap();
    assert_eq!(back.nonce, "n0nce");
    assert_eq!(back.ciphertext, "c1pher");
    assert_eq!(back.to_text(), text);
}

#[test]
fn what_is_no_record_is_refused() {
    for text in [
        "",
        "{}",
        "{\"nonce\":\"AAAA\"}",
        "{\"ciphertext\":\"AAAA\",\"nonce\":\"AAAA\"}",
        "{\"nonce\":\"AAAA\",\"ciphertext\":\"BBBB\"} ",
        " {\"nonce\":\"AAAA\",\"ciphertext\":\"BBBB\"}",
        "{\"nonce\":\"AAAA\",\"ciphertext\":\"BBBB\"",
        "{\"nonce\":\"AA\\\"AA\",\"ciphertext\":\"BBBB\"}",
        "{\"nonce\":\"AAAA\",\"ciphertext\":\"BB\"BB\"}",
        "{\"nonce\":\"AAAA\",\"ciphertext\":\"BBBB\"}{",
        "{\"nonce\":\"é\",\"ciphertext\":\"BBBB\"}",
        "{\"nonce\":\"A\nA\",\"ciphertext\":\"BBBB\"}",
        "[\"AAAA\",\"BBBB\"]",
    ] {
        assert!(Envelope::parse(text).is_none(), "{:?}", text);
    }
}
