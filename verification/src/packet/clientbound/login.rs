//! Packets that the server sends while a player logs in.

use crate::encoding::Encodable;
use crate::encoding::encode_field;
use crate::encoding::join;
use crate::error::DecodeError;
use crate::error::EncodeError;
use crate::packet::Packet;
use crate::varint::VarInt;
use bytes::BytesMut;
use vstd::prelude::*;

verus! {

/// Ends a login: the client is told why it is turned away.
pub struct DisconnectPacket {
    /// A chat component, as JSON text.
    pub reason: String,
}

impl View for DisconnectPacket {
    type V = Seq<char>;

    open spec fn view(&self) -> Self::V {
        self.reason@
    }
}

impl Encodable for DisconnectPacket {
    open spec fn wire(v: Self::V) -> Result<Seq<u8>, EncodeError> {
        String::wire(v)
    }

    open spec fn parse(bytes: Seq<u8>, at: int) -> Result<(Self::V, int), DecodeError> {
        String::parse(bytes, at)
    }

    open spec fn exact(v: Self::V) -> bool {
        String::exact(v)
    }

    proof fn lemma_round_trip(v: Self::V, before: Seq<u8>, after: Seq<u8>) {
        String::lemma_round_trip(v, before, after);
    }

    fn decode_at(bytes: &[u8], at: usize) -> (r: Result<(Self, usize), DecodeError>) {
        let (reason, at) = String::decode_at(bytes, at)?;
        Ok((DisconnectPacket { reason }, at))
    }

    fn encode(&self, writer: &mut BytesMut) -> (r: Result<(), EncodeError>) {
        self.reason.encode(writer)
    }
}

impl Packet for DisconnectPacket {}

/// Asks the client to set up encryption.
pub struct EncryptionRequestPacket {
    pub server_id: String,

    /// Length of shared secret.
    pub shared_secret_length: VarInt,

    /// Length of verify token.
    pub verify_token_length: VarInt,
}

impl View for EncryptionRequestPacket {
    type V = (Seq<char>, VarInt, VarInt);

    open spec fn view(&self) -> Self::V {
        (self.server_id@, self.shared_secret_length@, self.verify_token_length@)
    }
}

impl Encodable for EncryptionRequestPacket {
    open spec fn wire(v: Self::V) -> Result<Seq<u8>, EncodeError> {
        join(String::wire(v.0), join(VarInt::wire(v.1), VarInt::wire(v.2)))
    }

    open spec fn parse(bytes: Seq<u8>, at: int) -> Result<(Self::V, int), DecodeError> {
        match String::parse(bytes, at) {
            Err(e) => Err(e),
            Ok((server_id, at)) => match VarInt::parse(bytes, at) {
                Err(e) => Err(e),
                Ok((shared_secret_length, at)) => match VarInt::parse(bytes, at) {
                    Err(e) => Err(e),
                    Ok((verify_token_length, at)) => {
                        let whole = (server_id, shared_secret_length, verify_token_length);
                        Ok((whole, at))
                    },
                },
            },
        }
    }

    open spec fn exact(v: Self::V) -> bool {
        &&& String::exact(v.0)
        &&& VarInt::exact(v.1)
        &&& VarInt::exact(v.2)
    }

    proof fn lemma_round_trip(v: Self::V, before: Seq<u8>, after: Seq<u8>) {
        <(String, (VarInt, VarInt))>::lemma_round_trip((v.0, (v.1, v.2)), before, after);
    }

    fn decode_at(bytes: &[u8], at: usize) -> (r: Result<(Self, usize), DecodeError>) {
        let (server_id, at) = String::decode_at(bytes, at)?;
        let (shared_secret_length, at) = VarInt::decode_at(bytes, at)?;
        let (verify_token_length, at) = VarInt::decode_at(bytes, at)?;
        Ok((EncryptionRequestPacket { server_id, shared_secret_length, verify_token_length }, at))
    }

    fn encode(&self, writer: &mut BytesMut) -> (r: Result<(), EncodeError>) {
        let start = writer.len();
        encode_field(&self.server_id, writer, start)?;
        encode_field(&self.shared_secret_length, writer, start)?;
        encode_field(&self.verify_token_length, writer, start)?;
        Ok(())
    }
}

impl Packet for EncryptionRequestPacket {}

/// This packet switches the connection state to play.
pub struct LoginSuccessPacket {
    /// Unlike in other packets, this field contains the UUID as a string with hyphens.
    pub uuid: String,

    /// Username of Player.
    pub username: String,
}

impl View for LoginSuccessPacket {
    type V = (Seq<char>, Seq<char>);

    open spec fn view(&self) -> Self::V {
        (self.uuid@, self.username@)
    }
}

impl Encodable for LoginSuccessPacket {
    open spec fn wire(v: Self::V) -> Result<Seq<u8>, EncodeError> {
        join(String::wire(v.0), String::wire(v.1))
    }

    open spec fn parse(bytes: Seq<u8>, at: int) -> Result<(Self::V, int), DecodeError> {
        match String::parse(bytes, at) {
            Err(e) => Err(e),
            Ok((uuid, at)) => match String::parse(bytes, at) {
                Err(e) => Err(e),
                Ok((username, at)) => Ok(((uuid, username), at)),
            },
        }
    }

    open spec fn exact(v: Self::V) -> bool {
        &&& String::exact(v.0)
        &&& String::exact(v.1)
    }

    proof fn lemma_round_trip(v: Self::V, before: Seq<u8>, after: Seq<u8>) {
        <(String, String)>::lemma_round_trip((v.0, v.1), before, after);
    }

    fn decode_at(bytes: &[u8], at: usize) -> (r: Result<(Self, usize), DecodeError>) {
        let (uuid, at) = String::decode_at(bytes, at)?;
        let (username, at) = String::decode_at(bytes, at)?;
        Ok((LoginSuccessPacket { uuid, username }, at))
    }

    fn encode(&self, writer: &mut BytesMut) -> (r: Result<(), EncodeError>) {
        let start = writer.len();
        encode_field(&self.uuid, writer, start)?;
        encode_field(&self.username, writer, start)?;
        Ok(())
    }
}

impl Packet for LoginSuccessPacket {}

/// Turns on compression for the packets that follow.
pub struct SetCompressionPacket {
    /// Maximum size of a packet before its compressed.
    pub threshold: VarInt,
}

impl View for SetCompressionPacket {
    type V = VarInt;

    open spec fn view(&self) -> Self::V {
        self.threshold@
    }
}

impl Encodable for SetCompressionPacket {
    open spec fn wire(v: Self::V) -> Result<Seq<u8>, EncodeError> {
        VarInt::wire(v)
    }

    open spec fn parse(bytes: Seq<u8>, at: int) -> Result<(Self::V, int), DecodeError> {
        VarInt::parse(bytes, at)
    }

    open spec fn exact(v: Self::V) -> bool {
        VarInt::exact(v)
    }

    proof fn lemma_round_trip(v: Self::V, before: Seq<u8>, after: Seq<u8>) {
        VarInt::lemma_round_trip(v, before, after);
    }

    fn decode_at(bytes: &[u8], at: usize) -> (r: Result<(Self, usize), DecodeError>) {
        let (threshold, at) = VarInt::decode_at(bytes, at)?;
        Ok((SetCompressionPacket { threshold }, at))
    }

    fn encode(&self, writer: &mut BytesMut) -> (r: Result<(), EncodeError>) {
        self.threshold.encode(writer)
    }
}

impl Packet for SetCompressionPacket {}

} // verus!
