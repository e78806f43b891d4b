//! Packets that a client sends to ask for the server's status.

use crate::buffer::bytes_of;
use crate::encoding::Encodable;
use crate::error::DecodeError;
use crate::error::EncodeError;
use crate::packet::Packet;
use bytes::BytesMut;
use vstd::prelude::*;

verus! {

/// Asks for the server's status.
pub struct RequestPacket {}

impl View for RequestPacket {
    type V = ();

    open spec fn view(&self) -> Self::V {
        ()
    }
}

impl Encodable for RequestPacket {
    open spec fn wire(v: Self::V) -> Result<Seq<u8>, EncodeError> {
        Ok(Seq::empty())
    }

    open spec fn parse(bytes: Seq<u8>, at: int) -> Result<(Self::V, int), DecodeError> {
        Ok(((), at))
    }

    open spec fn exact(v: Self::V) -> bool {
        true
    }

    proof fn lemma_round_trip(v: Self::V, before: Seq<u8>, after: Seq<u8>) {
        assert(before + Seq::<u8>::empty() + after =~= before + after);
    }

    fn decode_at(bytes: &[u8], at: usize) -> (r: Result<(Self, usize), DecodeError>) {
        Ok((RequestPacket {}, at))
    }

    fn encode(&self, writer: &mut BytesMut) -> (r: Result<(), EncodeError>) {
        assert(bytes_of(*writer) + Seq::<u8>::empty() =~= bytes_of(*writer));
        Ok(())
    }
}

impl Packet for RequestPacket {}

/// Asks for a pong, to measure how long the way to the server is.
pub struct PingPacket {
    /// Long that the server is supposed to respond with through a Pong packet.
    pub payload: i64,
}

impl View for PingPacket {
    type V = i64;

    open spec fn view(&self) -> Self::V {
        self.payload@
    }
}

impl Encodable for PingPacket {
    open spec fn wire(v: Self::V) -> Result<Seq<u8>, EncodeError> {
        i64::wire(v)
    }

    open spec fn parse(bytes: Seq<u8>, at: int) -> Result<(Self::V, int), DecodeError> {
        i64::parse(bytes, at)
    }

    open spec fn exact(v: Self::V) -> bool {
        i64::exact(v)
    }

    proof fn lemma_round_trip(v: Self::V, before: Seq<u8>, after: Seq<u8>) {
        i64::lemma_round_trip(v, before, after);
    }

    fn decode_at(bytes: &[u8], at: usize) -> (r: Result<(Self, usize), DecodeError>) {
        let (payload, at) = i64::decode_at(bytes, at)?;
        Ok((PingPacket { payload }, at))
    }

    fn encode(&self, writer: &mut BytesMut) -> (r: Result<(), EncodeError>) {
        self.payload.encode(writer)
    }
}

impl Packet for PingPacket {}

} // verus!
