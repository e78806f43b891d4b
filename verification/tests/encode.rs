use bytes::BytesMut;
use protocol::encoding::Encodable;
use protocol::packet::test::Test;
use protocol::packet::test::TestPacket;
use std::marker::PhantomData;

#[test]
pub fn encode() {
    let packet = TestPacket {
        test: Test {
            val: String::from("hi"),
            phantom: PhantomData,
        },
    };

    let mut data = BytesMut::new();
    packet.encode(&mut data).unwrap();

    assert_eq!([2, 104, 105], &data[..]);
}
