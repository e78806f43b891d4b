use bytes::BytesMut;
use protocol::encoding::numbers::read_be;
use protocol::encoding::numbers::write_be;
use protocol::encoding::numbers::Double;
use protocol::encoding::numbers::Float;
use protocol::encoding::Encodable;
use protocol::error::DecodeError;

fn written<T: Encodable>(value: T) -> Vec<u8> {
    let mut writer = BytesMut::new();
    value.encode(&mut writer).unwrap();
    writer.to_vec()
}

#[test]
fn unsigned_integers_are_written_high_byte_first() {
    assert_eq!(written(0xABu8), [0xAB]);
    assert_eq!(written(25565u16), [0x63, 0xDD]);
    assert_eq!(written(0xDEADBEEFu32), [0xDE, 0xAD, 0xBE, 0xEF]);
    assert_eq!(written(0x0102030405060708u64), [1, 2, 3, 4, 5, 6, 7, 8]);
    assert_eq!(written(u64::MAX), [0xFF; 8]);
    assert_eq!(written(0u32), [0, 0, 0, 0]);
}

#[test]
fn signed_integers_are_written_in_twos_complement() {
    assert_eq!(written(-1i8), [0xFF]);
    assert_eq!(written(i8::MIN), [0x80]);
    assert_eq!(written(-2i16), [0xFF, 0xFE]);
    assert_eq!(written(-559038737i32), [0xDE, 0xAD, 0xBE, 0xEF]);
    assert_eq!(written(-81985529216486896i64), [254, 220, 186, 152, 118, 84, 50, 16]);
    assert_eq!(written(i64::MIN), [0x80, 0, 0, 0, 0, 0, 0, 0]);
    assert_eq!(written(i32::MAX), [0x7F, 0xFF, 0xFF, 0xFF]);
}

#[test]
fn integers_are_read_high_byte_first() {
    assert_eq!(u8::decode_at(&[0xAB], 0), Ok((0xAB, 1)));
    assert_eq!(i8::decode_at(&[0x80], 0), Ok((i8::MIN, 1)));
    assert_eq!(u16::decode_at(&[0x63, 0xDD], 0), Ok((25565, 2)));
    assert_eq!(i16::decode_at(&[0xFF, 0xFE], 0), Ok((-2, 2)));
    assert_eq!(u32::decode_at(&[0xDE, 0xAD, 0xBE, 0xEF], 0), Ok((0xDEADBEEF, 4)));
    assert_eq!(i32::decode_at(&[0xDE, 0xAD, 0xBE, 0xEF], 0), Ok((-559038737, 4)));
    assert_eq!(u64::decode_at(&[1, 2, 3, 4, 5, 6, 7, 8], 0), Ok((0x0102030405060708, 8)));
    assert_eq!(
        i64::decode_at(&[254, 220, 186, 152, 118, 84, 50, 16], 0),
        Ok((-81985529216486896, 8))
    );
}

#[test]
fn integers_round_trip_at_their_limits() {
    for value in [i16::MIN, -1, 0, 1, i16::MAX] {
        assert_eq!(i16::decode_at(&written(value), 0), Ok((value, 2)));
    }
    for value in [i32::MIN, -1, 0, 1, i32::MAX] {
        assert_eq!(i32::decode_at(&written(value), 0), Ok((value, 4)));
    }
    for value in [i64::MIN, -1, 0, 1, i64::MAX] {
        assert_eq!(i64::decode_at(&written(value), 0), Ok((value, 8)));
    }
    for value in [0, 1, u64::MAX] {
        assert_eq!(u64::decode_at(&written(value), 0), Ok((value, 8)));
    }
}

#[test]
fn integer_short_read() {
    assert_eq!(u8::decode_at(&[], 0), Err(DecodeError::UnexpectedEof));
    assert_eq!(i16::decode_at(&[1], 0), Err(DecodeError::UnexpectedEof));
    assert_eq!(u32::decode_at(&[1, 2, 3], 0), Err(DecodeError::UnexpectedEof));
    assert_eq!(i64::decode_at(&[1, 2, 3, 4, 5, 6, 7, 8], 1), Err(DecodeError::UnexpectedEof));
    let mut reader = BytesMut::from(&[1u8, 2, 3][..]);
    assert_eq!(u32::decode(&mut reader), Err(DecodeError::UnexpectedEof));
    assert_eq!(&reader[..], [1, 2, 3]);
}

#[test]
fn integer_decode_takes_its_width_from_the_reader() {
    let mut reader = BytesMut::from(&[0x63, 0xDD, 0x01, 0x02][..]);
    assert_eq!(u16::decode(&mut reader), Ok(25565));
    assert_eq!(&reader[..], [0x01, 0x02]);
}

#[test]
fn booleans_take_one_byte() {
    assert_eq!(written(false), [0]);
    assert_eq!(written(true), [1]);
    assert_eq!(bool::decode_at(&[0], 0), Ok((false, 1)));
    assert_eq!(bool::decode_at(&[1], 0), Ok((true, 1)));
    assert_eq!(bool::decode_at(&[7], 0), Ok((true, 1)));
    assert_eq!(bool::decode_at(&[], 0), Err(DecodeError::UnexpectedEof));
}

#[test]
fn floats_travel_as_their_bits() {
    assert_eq!(written(Float(1.5f32.to_bits())), [63, 192, 0, 0]);
    assert_eq!(written(Double((-2.25f64).to_bits())), [192, 2, 0, 0, 0, 0, 0, 0]);
    let (float, next) = Float::decode_at(&[63, 192, 0, 0], 0).unwrap();
    assert_eq!(f32::from_bits(float.0), 1.5);
    assert_eq!(next, 4);
    let (double, next) = Double::decode_at(&[192, 2, 0, 0, 0, 0, 0, 0], 0).unwrap();
    assert_eq!(f64::from_bits(double.0), -2.25);
    assert_eq!(next, 8);
    assert_eq!(Float::decode_at(&[0, 0, 0], 0), Err(DecodeError::UnexpectedEof));
}

#[test]
fn big_endian_digits_of_any_width() {
    let mut writer = BytesMut::new();
    write_be(0x010203, 3, &mut writer);
    assert_eq!(&writer[..], [1, 2, 3]);
    write_be(0x0102, 1, &mut writer);
    assert_eq!(&writer[..], [1, 2, 3, 2]);
    write_be(7, 0, &mut writer);
    assert_eq!(&writer[..], [1, 2, 3, 2]);
    assert_eq!(read_be(&[1, 2, 3, 2], 0, 3), Ok((0x010203, 3)));
    assert_eq!(read_be(&[1, 2, 3, 2], 1, 3), Ok((0x020302, 4)));
    assert_eq!(read_be(&[1, 2, 3, 2], 2, 0), Ok((0, 2)));
    assert_eq!(read_be(&[1, 2, 3, 2], 2, 3), Err(DecodeError::UnexpectedEof));
}
