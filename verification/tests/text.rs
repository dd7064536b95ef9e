use funless_worker::text::extract_string;

#[test]
fn absent_buffer_extracts_nothing() {
    assert!(extract_string(None).is_none());
}

#[test]
fn valid_utf8_extracts_the_string() {
    let r = extract_string(Some(b"hello world\n".to_vec()));
    assert_eq!(Some(Ok(String::from("hello world\n"))), r);
}

#[test]
fn invalid_utf8_hands_the_bytes_back() {
    let bytes = vec![0xff, 0xfe, b'a'];
    let r = extract_string(Some(bytes.clone()));
    assert_eq!(Some(Err(bytes)), r);
}
