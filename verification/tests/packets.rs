use bytes::BytesMut;
use protocol::encoding::numbers::Double;
use protocol::encoding::numbers::Float;
use protocol::encoding::Encodable;
use protocol::error::DecodeError;
use protocol::packet::clientbound::login::DisconnectPacket;
use protocol::packet::clientbound::login::LoginSuccessPacket;
use protocol::packet::clientbound::play::JoinGamePacket;
use protocol::packet::clientbound::play::PlayerPositionAndLookPacket;
use protocol::packet::clientbound::play::SpawnPositionPacket;
use protocol::packet::clientbound::play::UpdateHealthPacket;
use protocol::packet::clientbound::status::PongPacket;
use protocol::packet::clientbound::status::ResponsePacket;
use protocol::packet::serverbound::handshake;
use protocol::packet::serverbound::handshaking::HandshakePacket;
use protocol::packet::serverbound::login::LoginStartPacket;
use protocol::packet::serverbound::play::AnimationPacket;
use protocol::packet::serverbound::play::ClientSettingsPacket;
use protocol::packet::serverbound::play::PlayerDiggingPacket;
use protocol::packet::serverbound::play::UpdateSignPacket;
use protocol::packet::serverbound::status::PingPacket;
use protocol::packet::serverbound::status::RequestPacket;
use protocol::packet::test::Test;
use protocol::packet::test::TestPacket;
use protocol::position::Position;
use protocol::varint::VarInt;
use std::marker::PhantomData;

fn written<T: Encodable>(value: &T) -> Vec<u8> {
    let mut writer = BytesMut::new();
    value.encode(&mut writer).unwrap();
    writer.to_vec()
}

#[test]
fn handshake_fields_travel_in_their_order() {
    let packet = HandshakePacket {
        protocol_version: VarInt(47),
        server_address: String::from("localhost"),
        server_port: 25565,
        next_state: VarInt(1),
    };
    let bytes = written(&packet);
    assert_eq!(
        bytes,
        [47, 9, b'l', b'o', b'c', b'a', b'l', b'h', b'o', b's', b't', 0x63, 0xDD, 1]
    );
    let (back, next) = HandshakePacket::decode_at(&bytes, 0).unwrap();
    assert_eq!(next, 14);
    assert_eq!(back.protocol_version, VarInt(47));
    assert_eq!(back.server_address, "localhost");
    assert_eq!(back.server_port, 25565);
    assert_eq!(back.next_state, VarInt(1));
}

#[test]
fn earlier_handshake_states_the_next_state_in_four_bytes() {
    let packet = handshake::HandshakePacket {
        protocol_version: VarInt(300),
        server_address: String::from("a"),
        server_port: 1,
        next_state: 2,
    };
    let bytes = written(&packet);
    assert_eq!(bytes, [0xAC, 0x02, 1, b'a', 0, 1, 0, 0, 0, 2]);
    let (back, next) = handshake::HandshakePacket::decode_at(&bytes, 0).unwrap();
    assert_eq!(next, 10);
    assert_eq!(back.protocol_version, VarInt(300));
    assert_eq!(back.server_address, "a");
    assert_eq!(back.server_port, 1);
    assert_eq!(back.next_state, 2);
}

#[test]
fn packet_decode_takes_its_bytes_from_the_reader() {
    let mut reader = BytesMut::from(&[47u8, 1, b'h', 0x63, 0xDD, 2, 0xEE][..]);
    let packet = HandshakePacket::decode(&mut reader).unwrap();
    assert_eq!(packet.server_address, "h");
    assert_eq!(packet.next_state, VarInt(2));
    assert_eq!(&reader[..], [0xEE]);
}

#[test]
fn packet_that_ends_early_leaves_the_reader_alone() {
    let mut reader = BytesMut::from(&[47u8, 1, b'h', 0x63][..]);
    assert!(matches!(HandshakePacket::decode(&mut reader), Err(DecodeError::UnexpectedEof)));
    assert_eq!(&reader[..], [47, 1, b'h', 0x63]);
    let mut reader = BytesMut::from(&[47u8, 1, 0xFF, 0x63, 0xDD, 1][..]);
    assert!(matches!(HandshakePacket::decode(&mut reader), Err(DecodeError::InvalidUtf8)));
    assert_eq!(reader.len(), 6);
}

#[test]
fn packets_without_fields_take_no_bytes() {
    assert!(written(&RequestPacket {}).is_empty());
    assert!(written(&AnimationPacket {}).is_empty());
    assert!(matches!(RequestPacket::decode_at(&[1, 2], 1), Ok((RequestPacket {}, 1))));
    assert!(matches!(RequestPacket::decode_at(&[], 0), Ok((RequestPacket {}, 0))));
    let mut writer = BytesMut::from(&[5u8][..]);
    RequestPacket {}.encode(&mut writer).unwrap();
    assert_eq!(&writer[..], [5]);
}

#[test]
fn ping_and_pong_carry_eight_bytes() {
    assert_eq!(written(&PingPacket { payload: 1 }), [0, 0, 0, 0, 0, 0, 0, 1]);
    assert_eq!(written(&PongPacket { payload: -2 }), [255, 255, 255, 255, 255, 255, 255, 254]);
    let (ping, next) = PingPacket::decode_at(&[0, 0, 0, 0, 0, 0, 1, 0], 0).unwrap();
    assert_eq!(ping.payload, 256);
    assert_eq!(next, 8);
}

#[test]
fn response_and_login_packets_carry_text() {
    assert_eq!(written(&ResponsePacket { response: String::from("{}") }), [2, b'{', b'}']);
    assert_eq!(written(&LoginStartPacket { name: String::from("Al") }), [2, b'A', b'l']);
    let success = LoginSuccessPacket { uuid: String::from("u"), username: String::from("Al") };
    assert_eq!(written(&success), [1, b'u', 2, b'A', b'l']);
    let (back, next) = LoginSuccessPacket::decode_at(&[1, b'u', 2, b'A', b'l'], 0).unwrap();
    assert_eq!(back.uuid, "u");
    assert_eq!(back.username, "Al");
    assert_eq!(next, 5);
}

#[test]
fn chat_fields_travel_as_json_text() {
    let packet = DisconnectPacket { reason: String::from("{\"text\":\"bye\"}") };
    let bytes = written(&packet);
    assert_eq!(bytes[0], 14);
    assert_eq!(&bytes[1..], b"{\"text\":\"bye\"}");
    let (back, _) = DisconnectPacket::decode_at(&bytes, 0).unwrap();
    let json: serde_json::Value = serde_json::from_str(&back.reason).unwrap();
    assert_eq!(json["text"], "bye");
    let sign = UpdateSignPacket {
        location: Position { x: 1, y: 2, z: 3 },
        line_1: String::from("a"),
        line_2: String::from("b"),
        line_3: String::new(),
        line_4: String::from("d"),
    };
    assert_eq!(written(&sign), [0, 0, 0, 64, 0, 0, 48, 2, 1, b'a', 1, b'b', 0, 1, b'd']);
}

#[test]
fn join_game_has_six_fields() {
    let packet = JoinGamePacket {
        entity_id: 0x01020304,
        gamemode: 1,
        dimension: -1,
        difficulty: 2,
        max_players: 20,
        level_type: String::from("flat"),
    };
    let bytes = written(&packet);
    assert_eq!(bytes, [1, 2, 3, 4, 0, 1, 0xFF, 2, 20, 4, b'f', b'l', b'a', b't']);
    let (back, next) = JoinGamePacket::decode_at(&bytes, 0).unwrap();
    assert_eq!(next, 14);
    assert_eq!(back.entity_id, 0x01020304);
    assert_eq!(back.gamemode, 1);
    assert_eq!(back.dimension, -1);
    assert_eq!(back.difficulty, 2);
    assert_eq!(back.max_players, 20);
    assert_eq!(back.level_type, "flat");
}

#[test]
fn packets_with_positions() {
    let spawn = SpawnPositionPacket { location: Position { x: -1, y: -1, z: -1 } };
    assert_eq!(written(&spawn), [255; 8]);
    let digging = PlayerDiggingPacket { status: 2, location: Position { x: 1, y: 2, z: 3 }, face: 1 };
    let bytes = written(&digging);
    assert_eq!(bytes, [2, 0, 0, 0, 64, 0, 0, 48, 2, 1]);
    let (back, next) = PlayerDiggingPacket::decode_at(&bytes, 0).unwrap();
    assert_eq!(back.status, 2);
    assert_eq!(back.location, Position { x: 1, y: 2, z: 3 });
    assert_eq!(back.face, 1);
    assert_eq!(next, 10);
}

#[test]
fn packets_with_floats() {
    let health = UpdateHealthPacket {
        health: Float(1.5f32.to_bits()),
        food: VarInt(20),
        saturation: Float(0.0f32.to_bits()),
    };
    assert_eq!(written(&health), [63, 192, 0, 0, 20, 0, 0, 0, 0]);
    let look = PlayerPositionAndLookPacket {
        x: Double((-2.25f64).to_bits()),
        y: Double(0.0f64.to_bits()),
        z: Double(1.0f64.to_bits()),
        yaw: Float(1.5f32.to_bits()),
        pitch: Float((-1.5f32).to_bits()),
    };
    let bytes = written(&look);
    assert_eq!(bytes.len(), 32);
    assert_eq!(&bytes[..8], [192, 2, 0, 0, 0, 0, 0, 0]);
    assert_eq!(&bytes[24..], [63, 192, 0, 0, 191, 192, 0, 0]);
    let (back, next) = PlayerPositionAndLookPacket::decode_at(&bytes, 0).unwrap();
    assert_eq!(next, 32);
    assert_eq!(f64::from_bits(back.x.0), -2.25);
    assert_eq!(f64::from_bits(back.z.0), 1.0);
    assert_eq!(f32::from_bits(back.pitch.0), -1.5);
}

#[test]
fn client_settings_round_trip() {
    let packet = ClientSettingsPacket {
        locale: String::from("en_GB"),
        view_distance: 8,
        chat_mode: 0,
        display_skin_parts: 0x7F,
    };
    let bytes = written(&packet);
    assert_eq!(bytes, [5, b'e', b'n', b'_', b'G', b'B', 8, 0, 0x7F]);
    let mut reader = BytesMut::from(&bytes[..]);
    let back = ClientSettingsPacket::decode(&mut reader).unwrap();
    assert!(reader.is_empty());
    assert_eq!(back.locale, "en_GB");
    assert_eq!(back.view_distance, 8);
    assert_eq!(back.chat_mode, 0);
    assert_eq!(back.display_skin_parts, 0x7F);
}

#[test]
fn test_packet_is_read_back() {
    let (packet, next) = TestPacket::decode_at(&[2, 104, 105, 9], 0).unwrap();
    assert_eq!(packet.test.val, "hi");
    assert_eq!(next, 3);
    let inner = Test { val: String::from("yo"), phantom: PhantomData };
    assert_eq!(written(&inner), [2, b'y', b'o']);
}

#[test]
fn pairs_travel_one_after_the_other() {
    let pair = (VarInt(300), String::from("hi"));
    assert_eq!(written(&pair), [0xAC, 0x02, 2, b'h', b'i']);
    let ((first, second), next) =
        <(VarInt, String)>::decode_at(&[0xAC, 0x02, 2, b'h', b'i'], 0).unwrap();
    assert_eq!(first, VarInt(300));
    assert_eq!(second, "hi");
    assert_eq!(next, 5);
    assert!(matches!(
        <(VarInt, String)>::decode_at(&[0xAC, 0x02, 2, b'h'], 0),
        Err(DecodeError::UnexpectedEof)
    ));
}
