use protocol::chat::ChatComponent;
use protocol::connection::Action;
use protocol::connection::Connection;
use protocol::connection::PacketContainer;
use protocol::encoding::Encodable;
use protocol::error::DecodeError;
use protocol::error::FrameError;
use protocol::error::ProtocolError;
use protocol::frame::next_frame;
use protocol::packet::clientbound::status::PongPacket;
use protocol::packet::clientbound::status::ResponsePacket;
use protocol::packet::serverbound::handshaking::HandshakePacket;
use protocol::server::handle_connection;
use protocol::server::ServerConfiguration;
use protocol::state::State;
use protocol::varint::VarInt;

fn packet(id: i32, data: &[u8]) -> PacketContainer {
    PacketContainer { id: VarInt(id), length: VarInt(data.len() as i32 + 1), data: data.to_vec() }
}

fn handshake(next_state: i32) -> PacketContainer {
    let body = HandshakePacket {
        protocol_version: VarInt(47),
        server_address: String::from("localhost"),
        server_port: 25565,
        next_state: VarInt(next_state),
    };
    let mut data = Connection::buf_prep();
    body.encode(&mut data).unwrap();
    packet(0, &data)
}

fn connection_in(state: State) -> Connection {
    let mut connection = Connection::new();
    connection.state = state;
    connection
}

#[test]
fn new_connection_waits_for_a_handshake() {
    let connection = Connection::new();
    assert_eq!(connection.state, State::Handshaking);
    assert!(connection.buf.is_empty());
    assert_eq!(State::default(), State::Handshaking);
}

#[test]
fn handshake_for_status_leads_to_status() {
    let mut connection = Connection::new();
    let action = connection.handle_packet(&handshake(1), "{}");
    assert!(matches!(action, Ok(Action::Nothing)));
    assert_eq!(connection.state, State::Status);
}

#[test]
fn handshake_for_login_leads_to_login() {
    let mut connection = Connection::new();
    let action = connection.handle_packet(&handshake(2), "{}");
    assert!(matches!(action, Ok(Action::Nothing)));
    assert_eq!(connection.state, State::Login);
}

#[test]
fn handshake_for_another_state_closes() {
    let mut connection = Connection::new();
    let action = connection.handle_packet(&handshake(3), "{}");
    assert!(matches!(action, Err(ProtocolError::IllegalNextState(3))));
    assert_eq!(connection.state, State::Closed);
    for next_state in [0, -1, 4, i32::MAX] {
        let mut connection = Connection::new();
        let action = connection.handle_packet(&handshake(next_state), "{}");
        assert_eq!(action.unwrap_err(), ProtocolError::IllegalNextState(next_state));
        assert_eq!(connection.state, State::Closed);
    }
}

#[test]
fn handshake_that_ends_early_closes() {
    let mut connection = Connection::new();
    let action = connection.handle_packet(&packet(0, &[47, 9, b'l', b'o']), "{}");
    assert!(matches!(action, Err(ProtocolError::Decode(DecodeError::UnexpectedEof))));
    assert_eq!(connection.state, State::Closed);
}

#[test]
fn handshake_with_text_that_is_not_utf8_closes() {
    let mut connection = Connection::new();
    let action = connection.handle_packet(&packet(0, &[47, 1, 0xFF, 0x63, 0xDD, 1]), "{}");
    assert!(matches!(action, Err(ProtocolError::Decode(DecodeError::InvalidUtf8))));
    assert_eq!(connection.state, State::Closed);
}

#[test]
fn unknown_id_is_reported_and_changes_nothing() {
    for state in [State::Handshaking, State::Status, State::Login] {
        let mut connection = connection_in(state);
        let action = connection.handle_packet(&packet(0x7F, &[1, 2, 3]), "{}");
        assert!(matches!(action, Ok(Action::Unknown)));
        assert_eq!(connection.state, state);
    }
}

#[test]
fn status_request_is_answered_with_the_status() {
    let mut connection = connection_in(State::Status);
    let action = connection.handle_packet(&packet(0, &[]), "{\"a\":1}").unwrap();
    let Action::Send(mut frame) = action else { panic!("no answer") };
    assert_eq!(frame, [9, 0, 7, b'{', b'"', b'a', b'"', b':', b'1', b'}']);
    let answer = next_frame(&mut frame).unwrap().unwrap();
    assert_eq!(answer.id, VarInt(0));
    let (response, _) = ResponsePacket::decode_at(&answer.data, 0).unwrap();
    assert_eq!(response.response, "{\"a\":1}");
    assert_eq!(connection.state, State::Status);
}

#[test]
fn ping_is_answered_with_its_payload() {
    let mut connection = connection_in(State::Status);
    let payload = [0x01, 0x23, 0x45, 0x67, 0x89, 0xAB, 0xCD, 0xEF];
    let action = connection.handle_packet(&packet(1, &payload), "{}").unwrap();
    let Action::Send(mut frame) = action else { panic!("no answer") };
    assert_eq!(frame, [9, 1, 0x01, 0x23, 0x45, 0x67, 0x89, 0xAB, 0xCD, 0xEF]);
    let answer = next_frame(&mut frame).unwrap().unwrap();
    assert_eq!(answer.id, VarInt(1));
    let (pong, _) = PongPacket::decode_at(&answer.data, 0).unwrap();
    assert_eq!(pong.payload, 0x0123456789ABCDEF);
    assert_eq!(connection.state, State::Status);
}

#[test]
fn ping_that_ends_early_closes() {
    let mut connection = connection_in(State::Status);
    let action = connection.handle_packet(&packet(1, &[1, 2, 3]), "{}");
    assert!(matches!(action, Err(ProtocolError::Decode(DecodeError::UnexpectedEof))));
    assert_eq!(connection.state, State::Closed);
}

#[test]
fn status_too_long_for_a_frame_closes() {
    let mut connection = connection_in(State::Status);
    let status = "x".repeat(2097151);
    let action = connection.handle_packet(&packet(0, &[]), &status);
    assert!(matches!(action, Err(ProtocolError::Frame(FrameError::TooLarge))));
    assert_eq!(connection.state, State::Closed);
}

#[test]
fn login_start_leads_to_play() {
    let mut connection = connection_in(State::Login);
    let action = connection.handle_packet(&packet(0, &[5, b'S', b't', b'e', b'v', b'e']), "{}");
    assert!(matches!(action, Ok(Action::Nothing)));
    assert_eq!(connection.state, State::Play);
}

#[test]
fn login_start_that_is_malformed_closes() {
    let mut connection = connection_in(State::Login);
    let action = connection.handle_packet(&packet(0, &[5, b'S', b't']), "{}");
    assert!(matches!(action, Err(ProtocolError::Decode(DecodeError::UnexpectedEof))));
    assert_eq!(connection.state, State::Closed);
}

#[test]
fn play_hands_every_packet_on() {
    let mut connection = connection_in(State::Play);
    for id in [0, 1, 0x49, -1] {
        let action = connection.handle_packet(&packet(id, &[1, 2]), "{}");
        assert!(matches!(action, Ok(Action::Dispatch)));
        assert_eq!(connection.state, State::Play);
    }
}

#[test]
fn closed_connection_stays_closed() {
    let mut connection = connection_in(State::Closed);
    for packet in [handshake(1), handshake(2), packet(1, &[0; 8]), packet(0, &[])] {
        let action = connection.handle_packet(&packet, "{}");
        assert!(matches!(action, Ok(Action::Nothing)));
        assert_eq!(connection.state, State::Closed);
    }
}

#[test]
fn read_takes_in_what_arrived() {
    let mut connection = Connection::new();
    assert_eq!(connection.read(&[1, 2]), Ok(()));
    assert_eq!(connection.read(&[3]), Ok(()));
    assert_eq!(connection.buf, [1, 2, 3]);
    assert_eq!(connection.state, State::Handshaking);
}

#[test]
fn read_of_nothing_closes() {
    let mut connection = Connection::new();
    connection.read(&[1, 2]).unwrap();
    assert_eq!(connection.read(&[]), Err(ProtocolError::Transport));
    assert_eq!(connection.state, State::Closed);
    assert_eq!(connection.buf, [1, 2]);
}

#[test]
fn close_closes() {
    let mut connection = connection_in(State::Play);
    connection.buf = vec![1, 2, 3];
    connection.close();
    assert_eq!(connection.state, State::Closed);
    assert_eq!(connection.buf, [1, 2, 3]);
}

#[test]
fn driver_handles_handshake_and_status_request_in_one_read() {
    let mut connection = Connection::new();
    let mut incoming = vec![15, 0, 47, 9];
    incoming.extend_from_slice(b"localhost");
    incoming.extend_from_slice(&[0x63, 0xDD, 1, 1, 0, 9, 1, 0, 0]);
    connection.read(&incoming).unwrap();
    let outcome = handle_connection(&mut connection, "{}");
    assert_eq!(connection.state, State::Status);
    assert_eq!(outcome.output, [4, 0, 2, b'{', b'}']);
    assert!(outcome.dispatched.is_empty());
    assert!(outcome.unknown.is_empty());
    assert_eq!(outcome.error, None);
    assert_eq!(connection.buf, [9, 1, 0, 0]);
    connection.read(&[0, 0, 0, 0, 0, 42]).unwrap();
    let outcome = handle_connection(&mut connection, "{}");
    assert_eq!(outcome.output, [9, 1, 0, 0, 0, 0, 0, 0, 0, 42]);
    assert!(connection.buf.is_empty());
    assert_eq!(connection.state, State::Status);
}

#[test]
fn driver_hands_on_the_packets_of_the_game() {
    let mut connection = Connection::new();
    let mut incoming = vec![15, 0, 47, 9];
    incoming.extend_from_slice(b"localhost");
    incoming.extend_from_slice(&[0x63, 0xDD, 2]);
    incoming.extend_from_slice(&[2, 9, 9]);
    incoming.extend_from_slice(&[7, 0, 5, b'S', b't', b'e', b'v', b'e']);
    incoming.extend_from_slice(&[3, 0x0B, 1, 2, 2, 0x00, 7]);
    connection.read(&incoming).unwrap();
    let outcome = handle_connection(&mut connection, "{}");
    assert_eq!(connection.state, State::Play);
    assert!(outcome.output.is_empty());
    assert_eq!(outcome.error, None);
    assert_eq!(outcome.unknown.len(), 1);
    assert_eq!(outcome.unknown[0].id, VarInt(9));
    assert_eq!(outcome.unknown[0].data, [9]);
    assert_eq!(outcome.dispatched.len(), 2);
    assert_eq!(outcome.dispatched[0].id, VarInt(0x0B));
    assert_eq!(outcome.dispatched[0].data, [1, 2]);
    assert_eq!(outcome.dispatched[1].id, VarInt(0));
    assert_eq!(outcome.dispatched[1].data, [7]);
    assert!(connection.buf.is_empty());
}

#[test]
fn driver_closes_on_a_malformed_frame() {
    let mut connection = connection_in(State::Play);
    connection.read(&[2, 1, 7, 0, 0, 5]).unwrap();
    let outcome = handle_connection(&mut connection, "{}");
    assert_eq!(outcome.dispatched.len(), 1);
    assert_eq!(outcome.error, Some(ProtocolError::Frame(FrameError::LengthNotPositive)));
    assert_eq!(connection.state, State::Closed);
    assert_eq!(connection.buf, [0, 0, 5]);
}

#[test]
fn driver_stops_at_the_packet_that_is_refused() {
    let mut connection = Connection::new();
    let mut incoming = vec![15, 0, 47, 9];
    incoming.extend_from_slice(b"localhost");
    incoming.extend_from_slice(&[0x63, 0xDD, 3, 1, 0]);
    connection.read(&incoming).unwrap();
    let outcome = handle_connection(&mut connection, "{}");
    assert_eq!(outcome.error, Some(ProtocolError::IllegalNextState(3)));
    assert!(outcome.output.is_empty());
    assert_eq!(connection.state, State::Closed);
    assert_eq!(connection.buf, [1, 0]);
    let outcome = handle_connection(&mut connection, "{}");
    assert_eq!(outcome.error, None);
    assert_eq!(connection.buf, [1, 0]);
}

#[test]
fn driver_leaves_a_closed_connection_alone() {
    let mut connection = connection_in(State::Closed);
    connection.buf = vec![1, 0, 1, 0];
    let outcome = handle_connection(&mut connection, "{}");
    assert!(outcome.output.is_empty());
    assert!(outcome.dispatched.is_empty());
    assert!(outcome.unknown.is_empty());
    assert_eq!(outcome.error, None);
    assert_eq!(connection.buf, [1, 0, 1, 0]);
    assert_eq!(connection.state, State::Closed);
}

#[test]
fn status_request_tells_the_configured_player_limit() {
    let motd = ChatComponent::builder().text(String::from("A \"quiet\" server\n")).build();
    let config = ServerConfiguration::builder().max_players(20).motd(motd).build();
    let status = config.status(3).unwrap();
    let mut connection = Connection::new();
    let mut incoming = vec![15, 0, 47, 9];
    incoming.extend_from_slice(b"localhost");
    incoming.extend_from_slice(&[0x63, 0xDD, 1, 1, 0]);
    connection.read(&incoming).unwrap();
    let mut outcome = handle_connection(&mut connection, &status);
    assert_eq!(connection.state, State::Status);
    let answer = next_frame(&mut outcome.output).unwrap().unwrap();
    assert!(outcome.output.is_empty());
    assert_eq!(answer.id, VarInt(0));
    let (response, next) = ResponsePacket::decode_at(&answer.data, 0).unwrap();
    assert_eq!(next, answer.data.len());
    let json: serde_json::Value = serde_json::from_str(&response.response).unwrap();
    assert_eq!(json["players"]["max"], 20);
    assert_eq!(json["players"]["online"], 3);
    assert_eq!(json["version"]["name"], "1.8.9");
    assert_eq!(json["version"]["protocol"], 47);
    assert_eq!(json["description"]["text"], "A \"quiet\" server\n");
}

#[test]
fn driver_does_not_care_in_how_many_pieces_the_bytes_arrive() {
    let mut stream = vec![15, 0, 47, 9];
    stream.extend_from_slice(b"localhost");
    stream.extend_from_slice(&[0x63, 0xDD, 1]);
    stream.extend_from_slice(&[1, 0]);
    stream.extend_from_slice(&[2, 5, 5]);
    stream.extend_from_slice(&[9, 1, 1, 2, 3, 4, 5, 6, 7, 8]);
    stream.extend_from_slice(&[3, 1, 0, 0]);

    let mut at_once = Connection::new();
    at_once.read(&stream).unwrap();
    let whole = handle_connection(&mut at_once, "{}");

    for piece in [1, 2, 3, 5, 7, 16] {
        let mut connection = Connection::new();
        let mut output = Vec::new();
        let mut unknown = Vec::new();
        let mut error = None;
        for chunk in stream.chunks(piece) {
            connection.read(chunk).unwrap();
            let mut outcome = handle_connection(&mut connection, "{}");
            output.append(&mut outcome.output);
            unknown.extend(outcome.unknown.iter().map(|packet| packet.id));
            assert!(outcome.dispatched.is_empty());
            error = error.or(outcome.error);
        }
        assert_eq!(output, whole.output);
        assert_eq!(unknown, [VarInt(5)]);
        assert_eq!(error, whole.error);
        assert_eq!(connection.state, at_once.state);
        assert_eq!(connection.buf, at_once.buf);
    }
    assert_eq!(whole.output[..5], [4, 0, 2, b'{', b'}']);
    assert_eq!(whole.output[5..], [9, 1, 1, 2, 3, 4, 5, 6, 7, 8]);
    assert_eq!(whole.error, Some(ProtocolError::Decode(DecodeError::UnexpectedEof)));
    assert_eq!(at_once.state, State::Closed);
    assert!(at_once.buf.is_empty());
}
