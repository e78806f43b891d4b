use bytes::BytesMut;
use protocol::encoding::Encodable;
use protocol::error::DecodeError;
use protocol::error::EncodeError;

#[test]
fn string_hi_is_length_prefixed_utf8() {
    let mut writer = BytesMut::new();
    String::from("hi").encode(&mut writer).unwrap();
    assert_eq!(&writer[..], [0x02, 0x68, 0x69]);
    let mut reader = BytesMut::from(&[0x02, 0x68, 0x69][..]);
    assert_eq!(String::decode(&mut reader), Ok(String::from("hi")));
    assert!(reader.is_empty());
}

#[test]
fn string_length_counts_bytes_not_characters() {
    let mut writer = BytesMut::new();
    String::from("h\u{e9}\u{20ac}").encode(&mut writer).unwrap();
    assert_eq!(&writer[..], [0x06, 0x68, 0xC3, 0xA9, 0xE2, 0x82, 0xAC]);
    assert_eq!(
        String::decode_at(&[0x06, 0x68, 0xC3, 0xA9, 0xE2, 0x82, 0xAC], 0),
        Ok((String::from("h\u{e9}\u{20ac}"), 7))
    );
}

#[test]
fn empty_string_is_one_zero_byte() {
    let mut writer = BytesMut::new();
    String::new().encode(&mut writer).unwrap();
    assert_eq!(&writer[..], [0x00]);
    assert_eq!(String::decode_at(&[0x00, 0x41], 0), Ok((String::new(), 1)));
}

#[test]
fn long_string_has_a_two_byte_length() {
    let text = "a".repeat(300);
    let mut writer = BytesMut::new();
    text.encode(&mut writer).unwrap();
    assert_eq!(writer.len(), 302);
    assert_eq!(&writer[..2], [0xAC, 0x02]);
    assert_eq!(String::decode_at(&writer, 0), Ok((text, 302)));
}

#[test]
fn string_decode_leaves_what_follows() {
    let mut reader = BytesMut::from(&[0x02, 0x68, 0x69, 0x01, 0x41][..]);
    assert_eq!(String::decode(&mut reader), Ok(String::from("hi")));
    assert_eq!(&reader[..], [0x01, 0x41]);
    assert_eq!(String::decode(&mut reader), Ok(String::from("A")));
    assert!(reader.is_empty());
}

#[test]
fn string_that_is_not_utf8_is_refused() {
    let mut reader = BytesMut::from(&[0x02, 0xC3, 0x28][..]);
    assert_eq!(String::decode(&mut reader), Err(DecodeError::InvalidUtf8));
    assert_eq!(&reader[..], [0x02, 0xC3, 0x28]);
    assert_eq!(String::decode_at(&[0x01, 0xFF], 0), Err(DecodeError::InvalidUtf8));
    assert_eq!(String::decode_at(&[0x03, 0xED, 0xA0, 0x80], 0), Err(DecodeError::InvalidUtf8));
}

#[test]
fn string_short_read() {
    assert_eq!(String::decode_at(&[0x03, 0x68, 0x69], 0), Err(DecodeError::UnexpectedEof));
    assert_eq!(String::decode_at(&[], 0), Err(DecodeError::UnexpectedEof));
    assert_eq!(String::decode_at(&[0x80], 0), Err(DecodeError::UnexpectedEof));
}

#[test]
fn string_with_a_length_below_zero_is_refused() {
    assert_eq!(
        String::decode_at(&[0xFF, 0xFF, 0xFF, 0xFF, 0x0F, 0x41], 0),
        Err(DecodeError::NegativeLength)
    );
}

#[test]
fn string_with_a_malformed_length_is_refused() {
    assert_eq!(
        String::decode_at(&[0x80, 0x80, 0x80, 0x80, 0x80, 0x00], 0),
        Err(DecodeError::VarIntTooLong)
    );
}

#[test]
fn string_above_the_longest_length_is_not_written() {
    let text = "a".repeat(i32::MAX as usize + 1);
    let mut writer = BytesMut::from(&[7u8][..]);
    assert_eq!(text.encode(&mut writer), Err(EncodeError::TooLong));
    assert_eq!(&writer[..], [7]);
}
