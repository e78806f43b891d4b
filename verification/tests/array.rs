use bytes::BytesMut;
use protocol::array::CountedArray;
use protocol::encoding::array::Count;
use protocol::encoding::option::decode_optional;
use protocol::encoding::option::encode_optional;
use protocol::encoding::Encodable;
use protocol::error::DecodeError;
use protocol::error::EncodeError;
use protocol::varint::VarInt;

#[test]
fn counted_array_is_its_count_and_its_elements() {
    let array = CountedArray { len: VarInt(3), arr: vec![1u16, 2, 300] };
    let mut writer = BytesMut::new();
    array.encode(&mut writer).unwrap();
    assert_eq!(&writer[..], [3, 0, 1, 0, 2, 1, 44]);
}

#[test]
fn counted_array_is_read_element_by_element() {
    let (array, next) =
        CountedArray::<VarInt, u16>::decode_at(&[3, 0, 1, 0, 2, 1, 44, 99], 0).unwrap();
    assert_eq!(array.len, VarInt(3));
    assert_eq!(array.arr, [1, 2, 300]);
    assert_eq!(next, 7);
    let mut reader = BytesMut::from(&[2u8, 2, 0x68, 0x69, 0, 5][..]);
    let array = CountedArray::<u8, String>::decode(&mut reader).unwrap();
    assert_eq!(array.len, 2);
    assert_eq!(array.arr, [String::from("hi"), String::new()]);
    assert_eq!(&reader[..], [5]);
}

#[test]
fn empty_counted_array_is_its_count() {
    let array = CountedArray { len: VarInt(0), arr: Vec::<i64>::new() };
    let mut writer = BytesMut::new();
    array.encode(&mut writer).unwrap();
    assert_eq!(&writer[..], [0]);
    let (array, next) = CountedArray::<VarInt, i64>::decode_at(&[0, 1], 0).unwrap();
    assert!(array.arr.is_empty());
    assert_eq!(next, 1);
}

#[test]
fn counted_array_with_a_wrong_count_is_not_written() {
    let array = CountedArray { len: VarInt(2), arr: vec![1u8, 2, 3] };
    let mut writer = BytesMut::from(&[7u8][..]);
    assert_eq!(array.encode(&mut writer), Err(EncodeError::LengthMismatch));
    assert_eq!(&writer[..], [7]);
    let array = CountedArray { len: -1i32, arr: Vec::<u8>::new() };
    assert_eq!(array.encode(&mut writer), Err(EncodeError::LengthMismatch));
    assert_eq!(&writer[..], [7]);
}

#[test]
fn counted_array_that_ends_early_is_refused() {
    assert!(matches!(
        CountedArray::<VarInt, u16>::decode_at(&[3, 0, 1, 0, 2, 1], 0),
        Err(DecodeError::UnexpectedEof)
    ));
    let mut reader = BytesMut::from(&[3u8, 0, 1, 0, 2, 1][..]);
    assert!(matches!(
        CountedArray::<VarInt, u16>::decode(&mut reader),
        Err(DecodeError::UnexpectedEof)
    ));
    assert_eq!(reader.len(), 6);
}

#[test]
fn counted_array_with_a_count_below_zero_is_refused() {
    assert!(matches!(
        CountedArray::<VarInt, u8>::decode_at(&[0xFF, 0xFF, 0xFF, 0xFF, 0x0F, 1], 0),
        Err(DecodeError::NegativeLength)
    ));
    assert!(matches!(
        CountedArray::<i16, u8>::decode_at(&[0xFF, 0xFE, 1], 0),
        Err(DecodeError::NegativeLength)
    ));
}

#[test]
fn counted_array_hands_on_the_error_of_an_element() {
    assert!(matches!(
        CountedArray::<u8, String>::decode_at(&[2, 1, 0x41, 1, 0xFF], 0),
        Err(DecodeError::InvalidUtf8)
    ));
}

#[test]
fn counts_are_read_from_their_values() {
    assert_eq!(VarInt(5).to_usize(), Some(5));
    assert_eq!(VarInt(-5).to_usize(), None);
    assert_eq!(7i32.to_usize(), Some(7));
    assert_eq!((-1i32).to_usize(), None);
    assert_eq!(9i16.to_usize(), Some(9));
    assert_eq!(i16::MIN.to_usize(), None);
    assert_eq!(255u8.to_usize(), Some(255));
}

#[test]
fn optional_field_is_read_when_it_is_said_to_be_there() {
    assert_eq!(decode_optional::<u16>(true, &[1, 2, 3], 0), Ok((Some(258), 2)));
    assert_eq!(decode_optional::<u16>(false, &[1, 2, 3], 1), Ok((None, 1)));
    assert_eq!(decode_optional::<u16>(true, &[1, 2, 3], 2), Err(DecodeError::UnexpectedEof));
    assert_eq!(decode_optional::<u16>(false, &[], 0), Ok((None, 0)));
}

#[test]
fn optional_field_is_written_when_it_is_there() {
    let mut writer = BytesMut::from(&[9u8][..]);
    encode_optional(&Some(VarInt(300)), &mut writer).unwrap();
    assert_eq!(&writer[..], [9, 0xAC, 0x02]);
    encode_optional::<VarInt>(&None, &mut writer).unwrap();
    assert_eq!(&writer[..], [9, 0xAC, 0x02]);
}
