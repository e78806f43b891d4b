//! One peer's connection: the bytes it has sent, the state it is in, and
//! what each packet does to that state.

use crate::buffer::bytes_of;
use crate::encoding::Encodable;
use crate::error::EncodeError;
use crate::error::FrameError;
use crate::error::ProtocolError;
use crate::frame::frame_bytes;
use crate::frame::framed;
use crate::frame::MAX_FRAME_LENGTH;
use crate::packet::clientbound::status::PongPacket;
use crate::packet::clientbound::status::ResponsePacket;
use crate::packet::serverbound::handshaking::HandshakePacket;
use crate::packet::serverbound::login::LoginStartPacket;
use crate::packet::serverbound::status::PingPacket;
use crate::state::State;
use crate::varint::lemma_varint_bytes_len;
use crate::varint::unsigned32;
use crate::varint::varint_bytes;
use crate::varint::VarInt;
use bytes::BytesMut;
use vstd::prelude::*;
use vstd::slice::slice_to_vec;

verus! {

/// The id of the handshake, the one packet of the `Handshaking` state.
pub const HANDSHAKE_ID: i32 = 0;

/// The id of the status request, and of the response that answers it.
pub const STATUS_ID: i32 = 0;

/// The id of the ping, and of the pong that answers it.
pub const PING_ID: i32 = 1;

/// The id of the packet with which a login starts.
pub const LOGIN_START_ID: i32 = 0;

/// What a handshake writes to ask for the `Status` state.
pub const NEXT_STATE_STATUS: i32 = 1;

/// What a handshake writes to ask for the `Login` state.
pub const NEXT_STATE_LOGIN: i32 = 2;

/// A peer's connection, without the stream that its bytes come from.
pub struct Connection {
    /// Where the connection stands.
    pub state: State,
    /// What the peer has sent and no frame has been cut from yet.
    pub buf: Vec<u8>,
}

/// One packet as it came off the wire: its id, the length that its frame
/// stated, and the bytes that follow the id.
#[derive(Debug)]
pub struct PacketContainer {
    pub id: VarInt,
    pub length: VarInt,
    pub data: Vec<u8>,
}

impl View for PacketContainer {
    type V = (VarInt, VarInt, Seq<u8>);

    open spec fn view(&self) -> (VarInt, VarInt, Seq<u8>) {
        (self.id, self.length, self.data@)
    }
}

/// What is to be done about a packet that a connection has taken in.
#[derive(Debug)]
pub enum Action {
    /// Nothing: the packet has done its work on the connection's state.
    Nothing,
    /// These bytes, a frame, are to be written to the peer.
    Send(Vec<u8>),
    /// The packet belongs to the game and is to be handed on.
    Dispatch,
    /// The id means nothing in the connection's state: the packet is to be
    /// reported and dropped.
    Unknown,
}

/// An `Action`, with the bytes to send as a sequence.
pub enum Reply {
    Nothing,
    Send(Seq<u8>),
    Dispatch,
    Unknown,
}

impl View for Action {
    type V = Reply;

    open spec fn view(&self) -> Reply {
        match self {
            Action::Nothing => Reply::Nothing,
            Action::Send(bytes) => Reply::Send(bytes@),
            Action::Dispatch => Reply::Dispatch,
            Action::Unknown => Reply::Unknown,
        }
    }
}

/// The answer that carries `body` under `id`, if both have a wire form.
pub open spec fn answer(id: i32, body: Result<Seq<u8>, EncodeError>) -> Result<
    Reply,
    ProtocolError,
> {
    match body {
        Err(e) => Err(ProtocolError::Encode(e)),
        Ok(body) => match framed(VarInt(id), body) {
            Err(e) => Err(ProtocolError::Frame(e)),
            Ok(frame) => Ok(Reply::Send(frame)),
        },
    }
}

/// The state after an attempt to answer: `state` when there is an answer,
/// `Closed` when there is none.
pub open spec fn settle(state: State, outcome: Result<Reply, ProtocolError>) -> (State, Result<
    Reply,
    ProtocolError,
>) {
    match outcome {
        Ok(reply) => (state, Ok(reply)),
        Err(e) => (State::Closed, Err(e)),
    }
}

/// What the packet `id` with body `data` does to a connection in `state`:
/// the state afterwards, and what is to be done, or why the connection has
/// to go. `status` is the document that answers a status request. Bytes of
/// a body that stand behind the packet's last field are left unread.
pub open spec fn step(state: State, id: VarInt, data: Seq<u8>, status: Seq<char>) -> (
    State,
    Result<Reply, ProtocolError>,
) {
    match state {
        State::Handshaking => {
            if id.0 == HANDSHAKE_ID {
                match HandshakePacket::parse(data, 0) {
                    Err(e) => (State::Closed, Err(ProtocolError::Decode(e))),
                    Ok((handshake, _)) => {
                        let next_state = handshake.3.0;
                        if next_state == NEXT_STATE_STATUS {
                            (State::Status, Ok(Reply::Nothing))
                        } else if next_state == NEXT_STATE_LOGIN {
                            (State::Login, Ok(Reply::Nothing))
                        } else {
                            (State::Closed, Err(ProtocolError::IllegalNextState(next_state)))
                        }
                    },
                }
            } else {
                (state, Ok(Reply::Unknown))
            }
        },
        State::Status => {
            if id.0 == STATUS_ID {
                settle(state, answer(STATUS_ID, ResponsePacket::wire(status)))
            } else if id.0 == PING_ID {
                match PingPacket::parse(data, 0) {
                    Err(e) => (State::Closed, Err(ProtocolError::Decode(e))),
                    Ok((payload, _)) => settle(state, answer(PING_ID, PongPacket::wire(payload))),
                }
            } else {
                (state, Ok(Reply::Unknown))
            }
        },
        State::Login => {
            if id.0 == LOGIN_START_ID {
                match LoginStartPacket::parse(data, 0) {
                    Err(e) => (State::Closed, Err(ProtocolError::Decode(e))),
                    Ok(_) => (State::Play, Ok(Reply::Nothing)),
                }
            } else {
                (state, Ok(Reply::Unknown))
            }
        },
        State::Play => (state, Ok(Reply::Dispatch)),
        State::Closed => (state, Ok(Reply::Nothing)),
    }
}

/// Whether `r` is what `expected` says, bytes taken as sequences.
pub open spec fn replied(r: Result<Action, ProtocolError>, expected: Result<Reply, ProtocolError>)
    -> bool {
    match expected {
        Ok(reply) => r matches Ok(action) && action@ == reply,
        Err(e) => r matches Err(err) && err == e,
    }
}

/// A handshake that asks for status leads to `Status`, one that asks for
/// login leads to `Login`, and any other closes the connection.
pub proof fn lemma_handshake_decides(handshake: (VarInt, Seq<char>, u16, VarInt), status: Seq<char>)
    requires
        HandshakePacket::wire(handshake) is Ok,
    ensures
        step(
            State::Handshaking,
            VarInt(HANDSHAKE_ID),
            HandshakePacket::wire(handshake).unwrap(),
            status,
        ).0 == if handshake.3.0 == NEXT_STATE_STATUS {
            State::Status
        } else if handshake.3.0 == NEXT_STATE_LOGIN {
            State::Login
        } else {
            State::Closed
        },
{
    let bytes = HandshakePacket::wire(handshake).unwrap();
    HandshakePacket::lemma_round_trip(handshake, Seq::empty(), Seq::empty());
    assert(Seq::<u8>::empty() + bytes + Seq::<u8>::empty() =~= bytes);
}

/// Nothing leads out of `Closed`, and nothing is done about a packet that
/// arrives there.
pub proof fn lemma_closed_is_final(id: VarInt, data: Seq<u8>, status: Seq<char>)
    ensures
        step(State::Closed, id, data, status) == (State::Closed, Ok::<_, ProtocolError>(Reply::Nothing)),
{
}

/// Whenever a packet is refused, the connection is closed.
pub proof fn lemma_refusal_closes(state: State, id: VarInt, data: Seq<u8>, status: Seq<char>)
    ensures
        step(state, id, data, status).1 is Err ==> step(state, id, data, status).0 == State::Closed,
{
}

impl Connection {
    /// A connection that has just been accepted: it waits for a handshake
    /// and has received nothing.
    pub fn new() -> (connection: Connection)
        ensures
            connection.state == State::Handshaking,
            connection.buf@ == Seq::<u8>::empty(),
    {
        Connection { state: State::Handshaking, buf: Vec::new() }
    }

    /// An empty buffer to put a packet together in.
    pub fn buf_prep() -> (buf: BytesMut)
        ensures
            bytes_of(buf) == Seq::<u8>::empty(),
    {
        BytesMut::new()
    }

    /// Writes the packet id `id` at the end of `buf`.
    pub fn buf_write_id(buf: &mut BytesMut, id: i32) -> (r: Result<(), EncodeError>)
        ensures
            r is Ok,
            bytes_of(*final(buf)) == bytes_of(*old(buf)) + varint_bytes(unsigned32(id)),
    {
        VarInt(id).encode(buf)
    }

    /// Puts the length of `pkt_buf` in front of its bytes, which makes a
    /// frame of a packet id and the body behind it.
    pub fn buf_frame(pkt_buf: &BytesMut) -> (r: Result<BytesMut, FrameError>)
        ensures
            match r {
                Ok(frame) => {
                    &&& 0 < bytes_of(*pkt_buf).len() <= MAX_FRAME_LENGTH
                    &&& bytes_of(frame) == varint_bytes(bytes_of(*pkt_buf).len()) + bytes_of(
                        *pkt_buf,
                    )
                },
                Err(FrameError::LengthNotPositive) => bytes_of(*pkt_buf).len() == 0,
                Err(FrameError::TooLarge) => bytes_of(*pkt_buf).len() > MAX_FRAME_LENGTH,
                Err(_) => false,
            },
    {
        let length = pkt_buf.len();
        if length == 0 {
            return Err(FrameError::LengthNotPositive);
        }
        if length > MAX_FRAME_LENGTH as usize {
            return Err(FrameError::TooLarge);
        }
        let mut frame = BytesMut::new();
        let _ = VarInt(length as i32).encode(&mut frame);
        frame.extend_from_slice(pkt_buf);
        Ok(frame)
    }

    /// Takes in what a read from the stream gave. A read that gives nothing
    /// means that the peer has closed the stream: the connection is closed.
    pub fn read(&mut self, incoming: &[u8]) -> (r: Result<(), ProtocolError>)
        ensures
            incoming@.len() > 0 ==> {
                &&& r is Ok
                &&& final(self).state == old(self).state
                &&& final(self).buf@ == old(self).buf@ + incoming@
            },
            incoming@.len() == 0 ==> {
                &&& r == Err::<(), _>(ProtocolError::Transport)
                &&& final(self).state == State::Closed
                &&& final(self).buf@ == old(self).buf@
            },
    {
        if incoming.len() == 0 {
            self.state = State::Closed;
            return Err(ProtocolError::Transport);
        }
        self.buf.extend_from_slice(incoming);
        Ok(())
    }

    /// Closes the connection: on an error of the stream, or when the peer is
    /// to be dropped.
    pub fn close(&mut self)
        ensures
            final(self).state == State::Closed,
            final(self).buf == old(self).buf,
    {
        self.state = State::Closed;
    }

    /// Frames the answer `body` under `id`.
    fn reply<P: Encodable>(id: i32, body: &P) -> (r: Result<Action, ProtocolError>)
        ensures
            replied(r, answer(id, P::wire(body@))),
    {
        let mut buf = Self::buf_prep();
        let _ = Self::buf_write_id(&mut buf, id);
        match body.encode(&mut buf) {
            Ok(()) => {},
            Err(e) => {
                return Err(ProtocolError::Encode(e));
            },
        }
        proof {
            lemma_varint_bytes_len(unsigned32(id));
        }
        match Self::buf_frame(&buf) {
            Ok(frame) => {
                let bytes = slice_to_vec(&frame);
                assert(bytes@ =~= frame_bytes(VarInt(id), P::wire(body@).unwrap()));
                Ok(Action::Send(bytes))
            },
            Err(e) => Err(ProtocolError::Frame(e)),
        }
    }

    /// Lets `packet` act on the connection: the state moves as `step` says,
    /// and what is to be done about the packet is handed back. `status` is
    /// the document that answers a status request.
    pub fn handle_packet(&mut self, packet: &PacketContainer, status: &str) -> (r: Result<
        Action,
        ProtocolError,
    >)
        ensures
            final(self).state == step(old(self).state, packet.id, packet.data@, status@).0,
            replied(r, step(old(self).state, packet.id, packet.data@, status@).1),
            final(self).buf == old(self).buf,
    {
        let id = packet.id.0;
        let r = match self.state {
            State::Handshaking => {
                if id == HANDSHAKE_ID {
                    match HandshakePacket::decode_at(packet.data.as_slice(), 0) {
                        Err(e) => Err(ProtocolError::Decode(e)),
                        Ok((handshake, _)) => {
                            let next_state = handshake.next_state.0;
                            if next_state == NEXT_STATE_STATUS {
                                self.state = State::Status;
                                Ok(Action::Nothing)
                            } else if next_state == NEXT_STATE_LOGIN {
                                self.state = State::Login;
                                Ok(Action::Nothing)
                            } else {
                                Err(ProtocolError::IllegalNextState(next_state))
                            }
                        },
                    }
                } else {
                    Ok(Action::Unknown)
                }
            },
            State::Status => {
                if id == STATUS_ID {
                    Self::reply(STATUS_ID, &ResponsePacket { response: status.to_owned() })
                } else if id == PING_ID {
                    match PingPacket::decode_at(packet.data.as_slice(), 0) {
                        Err(e) => Err(ProtocolError::Decode(e)),
                        Ok((ping, _)) => Self::reply(PING_ID, &PongPacket { payload: ping.payload }),
                    }
                } else {
                    Ok(Action::Unknown)
                }
            },
            State::Login => {
                if id == LOGIN_START_ID {
                    match LoginStartPacket::decode_at(packet.data.as_slice(), 0) {
                        Err(e) => Err(ProtocolError::Decode(e)),
                        Ok(_) => {
                            self.state = State::Play;
                            Ok(Action::Nothing)
                        },
                    }
                } else {
                    Ok(Action::Unknown)
                }
            },
            State::Play => Ok(Action::Dispatch),
            State::Closed => Ok(Action::Nothing),
        };
        if r.is_err() {
            self.state = State::Closed;
        }
        r
    }
}

} // verus!
