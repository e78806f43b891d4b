use bytes::BytesMut;
use protocol::connection::Connection;
use protocol::error::FrameError;
use protocol::frame::next_frame;
use protocol::frame::MAX_FRAME_LENGTH;
use protocol::varint::VarInt;

#[test]
fn one_complete_frame_leaves_an_empty_buffer() {
    let mut buf = vec![0x03, 0x05, 0xAA, 0xBB];
    let packet = next_frame(&mut buf).unwrap().unwrap();
    assert_eq!(packet.id, VarInt(5));
    assert_eq!(packet.length, VarInt(3));
    assert_eq!(packet.data, [0xAA, 0xBB]);
    assert!(buf.is_empty());
    assert!(matches!(next_frame(&mut buf), Ok(None)));
}

#[test]
fn one_frame_and_three_bytes_of_the_next_leaves_those_three() {
    let mut buf = vec![0x03, 0x05, 0xAA, 0xBB, 0x04, 0x01, 0x02];
    let packet = next_frame(&mut buf).unwrap().unwrap();
    assert_eq!(packet.id, VarInt(5));
    assert_eq!(packet.data, [0xAA, 0xBB]);
    assert_eq!(buf, [0x04, 0x01, 0x02]);
    assert!(matches!(next_frame(&mut buf), Ok(None)));
    assert_eq!(buf, [0x04, 0x01, 0x02]);
    buf.push(0x03);
    assert!(matches!(next_frame(&mut buf), Ok(None)));
    buf.push(0x04);
    let packet = next_frame(&mut buf).unwrap().unwrap();
    assert_eq!(packet.id, VarInt(1));
    assert_eq!(packet.length, VarInt(4));
    assert_eq!(packet.data, [0x02, 0x03, 0x04]);
    assert!(buf.is_empty());
}

#[test]
fn frame_with_an_id_and_no_body() {
    let mut buf = vec![0x01, 0x00];
    let packet = next_frame(&mut buf).unwrap().unwrap();
    assert_eq!(packet.id, VarInt(0));
    assert_eq!(packet.length, VarInt(1));
    assert!(packet.data.is_empty());
    assert!(buf.is_empty());
}

#[test]
fn frame_with_a_two_byte_id() {
    let mut buf = vec![0x03, 0xAC, 0x02, 0x07, 0x09];
    let packet = next_frame(&mut buf).unwrap().unwrap();
    assert_eq!(packet.id, VarInt(300));
    assert_eq!(packet.data, [0x07]);
    assert_eq!(buf, [0x09]);
}

#[test]
fn buffer_without_a_whole_length_waits() {
    let mut buf: Vec<u8> = Vec::new();
    assert!(matches!(next_frame(&mut buf), Ok(None)));
    let mut buf = vec![0x80];
    assert!(matches!(next_frame(&mut buf), Ok(None)));
    assert_eq!(buf, [0x80]);
    let mut buf = vec![0x80, 0x80, 0x80];
    assert!(matches!(next_frame(&mut buf), Ok(None)));
    assert_eq!(buf.len(), 3);
}

#[test]
fn buffer_without_the_whole_body_waits() {
    let mut buf = vec![0x05, 0x00, 0x01];
    assert!(matches!(next_frame(&mut buf), Ok(None)));
    assert_eq!(buf, [0x05, 0x00, 0x01]);
    let mut buf = vec![0x01];
    assert!(matches!(next_frame(&mut buf), Ok(None)));
}

#[test]
fn frame_of_length_zero_is_malformed() {
    let mut buf = vec![0x00, 0x00];
    assert!(matches!(next_frame(&mut buf), Err(FrameError::LengthNotPositive)));
    assert_eq!(buf, [0x00, 0x00]);
}

#[test]
fn frame_of_length_below_zero_is_malformed() {
    let mut buf = vec![0xFF, 0xFF, 0xFF, 0xFF, 0x0F, 0x00];
    assert!(matches!(next_frame(&mut buf), Err(FrameError::LengthNotPositive)));
}

#[test]
fn frame_above_the_largest_length_is_refused() {
    let mut buf = vec![0x80, 0x80, 0x80, 0x01, 0x00];
    assert!(matches!(next_frame(&mut buf), Err(FrameError::TooLarge)));
    assert_eq!(buf.len(), 5);
    let mut buf = vec![0xFF, 0xFF, 0xFF, 0xFF, 0x07];
    assert!(matches!(next_frame(&mut buf), Err(FrameError::TooLarge)));
}

#[test]
fn frame_of_the_largest_length_waits_for_its_bytes() {
    let mut buf = vec![0xFF, 0xFF, 0x7F, 0x00];
    assert!(matches!(next_frame(&mut buf), Ok(None)));
    let mut buf = vec![0xFF, 0xFF, 0x7F];
    buf.push(0x09);
    buf.resize(3 + MAX_FRAME_LENGTH as usize, 0x55);
    let packet = next_frame(&mut buf).unwrap().unwrap();
    assert_eq!(packet.id, VarInt(9));
    assert_eq!(packet.length, VarInt(MAX_FRAME_LENGTH));
    assert_eq!(packet.data.len(), MAX_FRAME_LENGTH as usize - 1);
    assert!(buf.is_empty());
}

#[test]
fn frame_whose_length_is_no_varint_is_malformed() {
    let mut buf = vec![0x80, 0x80, 0x80, 0x80, 0x80, 0x01];
    assert!(matches!(next_frame(&mut buf), Err(FrameError::LengthMalformed)));
    assert_eq!(buf.len(), 6);
}

#[test]
fn frame_whose_id_does_not_end_inside_it_is_malformed() {
    let mut buf = vec![0x01, 0x80, 0x01];
    assert!(matches!(next_frame(&mut buf), Err(FrameError::IdMalformed)));
    assert_eq!(buf, [0x01, 0x80, 0x01]);
    let mut buf = vec![0x06, 0x80, 0x80, 0x80, 0x80, 0x80, 0x01];
    assert!(matches!(next_frame(&mut buf), Err(FrameError::IdMalformed)));
}

#[test]
fn packet_is_framed_with_its_length_in_front() {
    let mut packet = Connection::buf_prep();
    assert!(packet.is_empty());
    Connection::buf_write_id(&mut packet, 5).unwrap();
    assert_eq!(&packet[..], [0x05]);
    packet.extend_from_slice(&[0xAA, 0xBB]);
    let frame = Connection::buf_frame(&packet).unwrap();
    assert_eq!(&frame[..], [0x03, 0x05, 0xAA, 0xBB]);
    let mut buf = frame.to_vec();
    let back = next_frame(&mut buf).unwrap().unwrap();
    assert_eq!(back.id, VarInt(5));
    assert_eq!(back.data, [0xAA, 0xBB]);
    assert!(buf.is_empty());
}

#[test]
fn long_packet_has_a_two_byte_length() {
    let mut packet = Connection::buf_prep();
    Connection::buf_write_id(&mut packet, 300).unwrap();
    packet.extend_from_slice(&[7u8; 298]);
    let frame = Connection::buf_frame(&packet).unwrap();
    assert_eq!(frame.len(), 302);
    assert_eq!(&frame[..4], [0xAC, 0x02, 0xAC, 0x02]);
}

#[test]
fn empty_packet_makes_no_frame() {
    let packet = BytesMut::new();
    assert!(matches!(Connection::buf_frame(&packet), Err(FrameError::LengthNotPositive)));
}

#[test]
fn packet_above_the_largest_length_makes_no_frame() {
    let mut packet = Connection::buf_prep();
    Connection::buf_write_id(&mut packet, 0).unwrap();
    packet.extend_from_slice(&vec![0u8; MAX_FRAME_LENGTH as usize]);
    assert!(matches!(Connection::buf_frame(&packet), Err(FrameError::TooLarge)));
    let mut packet = Connection::buf_prep();
    Connection::buf_write_id(&mut packet, 0).unwrap();
    packet.extend_from_slice(&vec![0u8; MAX_FRAME_LENGTH as usize - 1]);
    let frame = Connection::buf_frame(&packet).unwrap();
    assert_eq!(&frame[..3], [0xFF, 0xFF, 0x7F]);
    assert_eq!(frame.len(), 3 + MAX_FRAME_LENGTH as usize);
}
