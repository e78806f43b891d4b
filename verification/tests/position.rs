use bytes::BytesMut;
use protocol::encoding::Encodable;
use protocol::error::DecodeError;
use protocol::position::Position;

fn written(position: Position) -> Vec<u8> {
    let mut writer = BytesMut::new();
    position.encode(&mut writer).unwrap();
    writer.to_vec()
}

#[test]
fn position_round_trip_at_the_boundaries() {
    for (x, y, z) in [(33554431, 2047, -33554432), (-33554432, -2048, 33554431), (0, 0, 0)] {
        let position = Position { x, y, z };
        let bytes = written(position);
        assert_eq!(bytes.len(), 8);
        let mut reader = BytesMut::from(&bytes[..]);
        assert_eq!(Position::decode(&mut reader), Ok(position));
        assert!(reader.is_empty());
    }
}

#[test]
fn position_exact_bytes() {
    assert_eq!(
        written(Position { x: 33554431, y: 2047, z: -33554432 }),
        [127, 255, 255, 224, 0, 0, 7, 255]
    );
    assert_eq!(
        written(Position { x: -33554432, y: -2048, z: 33554431 }),
        [128, 0, 0, 31, 255, 255, 248, 0]
    );
    assert_eq!(written(Position { x: 0, y: 0, z: 0 }), [0; 8]);
    assert_eq!(written(Position { x: 1, y: 2, z: 3 }), [0, 0, 0, 64, 0, 0, 48, 2]);
    assert_eq!(written(Position { x: -1, y: -1, z: -1 }), [255; 8]);
    assert_eq!(
        written(Position { x: 18357644, y: 831, z: -20882616 }),
        [70, 7, 99, 44, 21, 180, 131, 63]
    );
}

#[test]
fn position_is_read_with_its_signs() {
    assert_eq!(
        Position::decode_at(&[70, 7, 99, 44, 21, 180, 131, 63], 0),
        Ok((Position { x: 18357644, y: 831, z: -20882616 }, 8))
    );
    assert_eq!(Position::decode_at(&[255; 8], 0), Ok((Position { x: -1, y: -1, z: -1 }, 8)));
    assert_eq!(
        Position::decode_at(&[9, 0, 0, 0, 64, 0, 0, 48, 2], 1),
        Ok((Position { x: 1, y: 2, z: 3 }, 9))
    );
}

#[test]
fn position_out_of_range_keeps_its_low_bits() {
    let bytes = written(Position { x: 33554432, y: 2048, z: -33554433 });
    assert_eq!(bytes, [128, 0, 0, 31, 255, 255, 248, 0]);
    assert_eq!(
        Position::decode_at(&bytes, 0),
        Ok((Position { x: -33554432, y: -2048, z: 33554431 }, 8))
    );
}

#[test]
fn position_short_read() {
    assert_eq!(Position::decode_at(&[0; 7], 0), Err(DecodeError::UnexpectedEof));
    let mut reader = BytesMut::from(&[1u8, 2, 3][..]);
    assert_eq!(Position::decode(&mut reader), Err(DecodeError::UnexpectedEof));
    assert_eq!(reader.len(), 3);
}
