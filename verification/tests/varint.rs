use bytes::BytesMut;
use protocol::encoding::Encodable;
use protocol::error::DecodeError;
use protocol::varint::VarInt;

fn written(value: i32) -> Vec<u8> {
    let mut writer = BytesMut::new();
    VarInt(value).encode(&mut writer).unwrap();
    writer.to_vec()
}

#[test]
fn varint_round_trip_of_representative_values() {
    for value in [0, 1, 127, 128, 255, 2097151, 300, -1, i32::MIN, i32::MAX] {
        let bytes = written(value);
        let mut reader = BytesMut::from(&bytes[..]);
        assert_eq!(VarInt::decode(&mut reader), Ok(VarInt(value)));
        assert!(reader.is_empty());
        assert_eq!(VarInt::decode_at(&bytes, 0), Ok((VarInt(value), bytes.len())));
    }
}

#[test]
fn varint_300_takes_two_bytes() {
    assert_eq!(written(300), [0xAC, 0x02]);
}

#[test]
fn varint_boundary_between_one_and_two_bytes() {
    assert_eq!(written(127), [0x7F]);
    assert_eq!(written(128), [0x80, 0x01]);
}

#[test]
fn varint_exact_bytes() {
    assert_eq!(written(0), [0x00]);
    assert_eq!(written(1), [0x01]);
    assert_eq!(written(255), [0xFF, 0x01]);
    assert_eq!(written(25565), [0xDD, 0xC7, 0x01]);
    assert_eq!(written(2097151), [0xFF, 0xFF, 0x7F]);
    assert_eq!(written(2097152), [0x80, 0x80, 0x80, 0x01]);
    assert_eq!(written(i32::MAX), [0xFF, 0xFF, 0xFF, 0xFF, 0x07]);
}

#[test]
fn varint_below_zero_takes_five_bytes() {
    assert_eq!(written(-1), [0xFF, 0xFF, 0xFF, 0xFF, 0x0F]);
    assert_eq!(written(-2), [0xFE, 0xFF, 0xFF, 0xFF, 0x0F]);
    assert_eq!(written(i32::MIN), [0x80, 0x80, 0x80, 0x80, 0x08]);
}

#[test]
fn varint_encode_keeps_what_the_writer_held() {
    let mut writer = BytesMut::from(&[9u8, 8][..]);
    VarInt(300).encode(&mut writer).unwrap();
    assert_eq!(&writer[..], [9, 8, 0xAC, 0x02]);
}

#[test]
fn varint_decode_takes_only_its_own_bytes() {
    let mut reader = BytesMut::from(&[0xAC, 0x02, 0x07, 0x08][..]);
    assert_eq!(VarInt::decode(&mut reader), Ok(VarInt(300)));
    assert_eq!(&reader[..], [0x07, 0x08]);
    assert_eq!(VarInt::decode(&mut reader), Ok(VarInt(7)));
    assert_eq!(&reader[..], [0x08]);
}

#[test]
fn varint_decode_at_an_offset() {
    let bytes = [0xFF, 0xAC, 0x02, 0x01];
    assert_eq!(VarInt::decode_at(&bytes, 1), Ok((VarInt(300), 3)));
    assert_eq!(VarInt::decode_at(&bytes, 3), Ok((VarInt(1), 4)));
    assert_eq!(VarInt::decode_at(&bytes, 4), Err(DecodeError::UnexpectedEof));
}

#[test]
fn varint_short_read() {
    let mut empty = BytesMut::new();
    assert_eq!(VarInt::decode(&mut empty), Err(DecodeError::UnexpectedEof));
    let mut reader = BytesMut::from(&[0x80, 0x80][..]);
    assert_eq!(VarInt::decode(&mut reader), Err(DecodeError::UnexpectedEof));
    assert_eq!(&reader[..], [0x80, 0x80]);
    let mut four = BytesMut::from(&[0xFF, 0xFF, 0xFF, 0xFF][..]);
    assert_eq!(VarInt::decode(&mut four), Err(DecodeError::UnexpectedEof));
}

#[test]
fn varint_of_more_than_five_bytes_is_refused() {
    let mut reader = BytesMut::from(&[0x80, 0x80, 0x80, 0x80, 0x80, 0x01][..]);
    assert_eq!(VarInt::decode(&mut reader), Err(DecodeError::VarIntTooLong));
    assert_eq!(reader.len(), 6);
    let mut five = BytesMut::from(&[0xFF, 0xFF, 0xFF, 0xFF, 0xFF][..]);
    assert_eq!(VarInt::decode(&mut five), Err(DecodeError::VarIntTooLong));
}

#[test]
fn varint_with_padding_groups_is_read() {
    let mut reader = BytesMut::from(&[0x80, 0x00][..]);
    assert_eq!(VarInt::decode(&mut reader), Ok(VarInt(0)));
    assert!(reader.is_empty());
    let mut reader = BytesMut::from(&[0x81, 0x80, 0x80, 0x80, 0x00][..]);
    assert_eq!(VarInt::decode(&mut reader), Ok(VarInt(1)));
}

#[test]
fn varint_fifth_byte_keeps_its_low_four_bits() {
    let mut reader = BytesMut::from(&[0xFF, 0xFF, 0xFF, 0xFF, 0x7F][..]);
    assert_eq!(VarInt::decode(&mut reader), Ok(VarInt(-1)));
    let mut reader = BytesMut::from(&[0x80, 0x80, 0x80, 0x80, 0x10][..]);
    assert_eq!(VarInt::decode(&mut reader), Ok(VarInt(0)));
}

#[test]
fn varint_as_an_index() {
    let index: usize = VarInt(300).into();
    assert_eq!(index, 300);
    let zero: usize = VarInt(0).into();
    assert_eq!(zero, 0);
    let wrapped: usize = VarInt(-1).into();
    assert_eq!(wrapped, usize::MAX);
}
