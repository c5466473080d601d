use touptek::{unmarshal_string, Error};

#[test]
fn text_ends_at_the_terminator() {
    assert_eq!(unmarshal_string(b"hello\0world"), Ok("hello".to_string()));
    assert_eq!(unmarshal_string(b"TP110826145730ABCD1234FEDC56787\0"), Ok("TP110826145730ABCD1234FEDC56787".to_string()));
}

#[test]
fn text_without_terminator_is_the_whole_buffer() {
    assert_eq!(unmarshal_string(b"abc"), Ok("abc".to_string()));
}

#[test]
fn empty_text() {
    assert_eq!(unmarshal_string(b""), Ok(String::new()));
    assert_eq!(unmarshal_string(b"\0"), Ok(String::new()));
    assert_eq!(unmarshal_string(&[0u8; 64]), Ok(String::new()));
    assert_eq!(unmarshal_string(b"\0abc"), Ok(String::new()));
}

#[test]
fn text_of_several_bytes_a_character() {
    assert_eq!(unmarshal_string(&[0xc3, 0xa9, 0]), Ok("\u{e9}".to_string()));
    assert_eq!(
        unmarshal_string(&[b'5', 0xe2, 0x82, 0xac, 0, b'x']),
        Ok("5\u{20ac}".to_string())
    );
    assert_eq!(unmarshal_string(&[0xf0, 0x9f, 0x93, 0xb7]), Ok("\u{1f4f7}".to_string()));
}

#[test]
fn invalid_utf8_is_refused() {
    assert_eq!(unmarshal_string(&[0xff, 0xfe, 0]), Err(Error::Decode));
    assert_eq!(unmarshal_string(&[0x80]), Err(Error::Decode));
}

#[test]
fn invalid_utf8_after_valid_text_is_refused_whole() {
    assert_eq!(unmarshal_string(&[b'a', b'b', 0xc3, 0x28, 0]), Err(Error::Decode));
    assert_eq!(unmarshal_string(&[b'a', 0xff]), Err(Error::Decode));
}

#[test]
fn character_cut_off_by_the_terminator_is_refused() {
    assert_eq!(unmarshal_string(&[b'a', 0xe2, 0x82, 0, 0xac]), Err(Error::Decode));
    assert_eq!(unmarshal_string(&[0xe2, 0x82]), Err(Error::Decode));
}

#[test]
fn overlong_and_surrogate_encodings_are_refused() {
    assert_eq!(unmarshal_string(&[0xc0, 0x80, 0]), Err(Error::Decode));
    assert_eq!(unmarshal_string(&[0xed, 0xa0, 0x80, 0]), Err(Error::Decode));
}

#[test]
fn bytes_after_the_terminator_are_not_read() {
    assert_eq!(unmarshal_string(&[b'o', b'k', 0, 0xff, 0xfe]), Ok("ok".to_string()));
}

#[test]
fn decoding_is_repeatable() {
    let bad = [b'x', 0xf5, 0];
    assert_eq!(unmarshal_string(&bad), unmarshal_string(&bad));
    assert_eq!(unmarshal_string(&bad), Err(Error::Decode));
}
