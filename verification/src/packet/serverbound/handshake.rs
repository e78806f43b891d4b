//! The first packet of a connection, in its earlier form: the state that
//! the client asks for travels as a plain 32-bit integer.

use crate::encoding::Encodable;
use crate::encoding::encode_field;
use crate::encoding::join;
use crate::error::DecodeError;
use crate::error::EncodeError;
use crate::packet::Packet;
use crate::varint::VarInt;
use bytes::BytesMut;
use vstd::prelude::*;

verus! {

/// Opens a connection and says which state the client wants to go to.
pub struct HandshakePacket {
    pub protocol_version: VarInt,

    pub server_address: String,

    pub server_port: u16,

    pub next_state: i32,
}

impl View for HandshakePacket {
    type V = (VarInt, Seq<char>, u16, i32);

    open spec fn view(&self) -> Self::V {
        (self.protocol_version@, self.server_address@, self.server_port@, self.next_state@)
    }
}

impl Encodable for HandshakePacket {
    open spec fn wire(v: Self::V) -> Result<Seq<u8>, EncodeError> {
        join(VarInt::wire(v.0), join(String::wire(v.1), join(u16::wire(v.2), i32::wire(v.3))))
    }

    open spec fn parse(bytes: Seq<u8>, at: int) -> Result<(Self::V, int), DecodeError> {
        match VarInt::parse(bytes, at) {
            Err(e) => Err(e),
            Ok((protocol_version, at)) => match String::parse(bytes, at) {
                Err(e) => Err(e),
                Ok((server_address, at)) => match u16::parse(bytes, at) {
                    Err(e) => Err(e),
                    Ok((server_port, at)) => match i32::parse(bytes, at) {
                        Err(e) => Err(e),
                        Ok((next_state, at)) => {
                            let whole = (protocol_version, server_address, server_port, next_state);
                            Ok((whole, at))
                        },
                    },
                },
            },
        }
    }

    open spec fn exact(v: Self::V) -> bool {
        &&& VarInt::exact(v.0)
        &&& String::exact(v.1)
        &&& u16::exact(v.2)
        &&& i32::exact(v.3)
    }

    proof fn lemma_round_trip(v: Self::V, before: Seq<u8>, after: Seq<u8>) {
        <(VarInt, (String, (u16, i32)))>::lemma_round_trip((v.0, (v.1, (v.2, v.3))), before, after);
    }

    fn decode_at(bytes: &[u8], at: usize) -> (r: Result<(Self, usize), DecodeError>) {
        let (protocol_version, at) = VarInt::decode_at(bytes, at)?;
        let (server_address, at) = String::decode_at(bytes, at)?;
        let (server_port, at) = u16::decode_at(bytes, at)?;
        let (next_state, at) = i32::decode_at(bytes, at)?;
        Ok((HandshakePacket { protocol_version, server_address, server_port, next_state }, at))
    }

    fn encode(&self, writer: &mut BytesMut) -> (r: Result<(), EncodeError>) {
        let start = writer.len();
        encode_field(&self.protocol_version, writer, start)?;
        encode_field(&self.server_address, writer, start)?;
        encode_field(&self.server_port, writer, start)?;
        encode_field(&self.next_state, writer, start)?;
        Ok(())
    }
}

impl Packet for HandshakePacket {}

} // verus!
