//! Packets that a client sends while it logs in.

use crate::encoding::Encodable;
use crate::encoding::encode_field;
use crate::encoding::join;
use crate::error::DecodeError;
use crate::error::EncodeError;
use crate::packet::Packet;
use crate::varint::VarInt;
use bytes::BytesMut;
use vstd::prelude::*;

verus! {

/// Starts a login.
pub struct LoginStartPacket {
    pub name: String,
}

impl View for LoginStartPacket {
    type V = Seq<char>;

    open spec fn view(&self) -> Self::V {
        self.name@
    }
}

impl Encodable for LoginStartPacket {
    open spec fn wire(v: Self::V) -> Result<Seq<u8>, EncodeError> {
        String::wire(v)
    }

    open spec fn parse(bytes: Seq<u8>, at: int) -> Result<(Self::V, int), DecodeError> {
        String::parse(bytes, at)
    }

    open spec fn exact(v: Self::V) -> bool {
        String::exact(v)
    }

    proof fn lemma_round_trip(v: Self::V, before: Seq<u8>, after: Seq<u8>) {
        String::lemma_round_trip(v, before, after);
    }

    fn decode_at(bytes: &[u8], at: usize) -> (r: Result<(Self, usize), DecodeError>) {
        let (name, at) = String::decode_at(bytes, at)?;
        Ok((LoginStartPacket { name }, at))
    }

    fn encode(&self, writer: &mut BytesMut) -> (r: Result<(), EncodeError>) {
        self.name.encode(writer)
    }
}

impl Packet for LoginStartPacket {}

/// Answers the server's request to set up encryption.
pub struct EncryptionResponsePacket {
    /// Length of shared secret.
    pub shared_secret_length: VarInt,

    /// Length of verify token.
    pub verify_token_length: VarInt,
}

impl View for EncryptionResponsePacket {
    type V = (VarInt, VarInt);

    open spec fn view(&self) -> Self::V {
        (self.shared_secret_length@, self.verify_token_length@)
    }
}

impl Encodable for EncryptionResponsePacket {
    open spec fn wire(v: Self::V) -> Result<Seq<u8>, EncodeError> {
        join(VarInt::wire(v.0), VarInt::wire(v.1))
    }

    open spec fn parse(bytes: Seq<u8>, at: int) -> Result<(Self::V, int), DecodeError> {
        match VarInt::parse(bytes, at) {
            Err(e) => Err(e),
            Ok((shared_secret_length, at)) => match VarInt::parse(bytes, at) {
                Err(e) => Err(e),
                Ok((verify_token_length, at)) => {
                    let whole = (shared_secret_length, verify_token_length);
                    Ok((whole, at))
                },
            },
        }
    }

    open spec fn exact(v: Self::V) -> bool {
        &&& VarInt::exact(v.0)
        &&& VarInt::exact(v.1)
    }

    proof fn lemma_round_trip(v: Self::V, before: Seq<u8>, after: Seq<u8>) {
        <(VarInt, VarInt)>::lemma_round_trip((v.0, v.1), before, after);
    }

    fn decode_at(bytes: &[u8], at: usize) -> (r: Result<(Self, usize), DecodeError>) {
        let (shared_secret_length, at) = VarInt::decode_at(bytes, at)?;
        let (verify_token_length, at) = VarInt::decode_at(bytes, at)?;
        Ok((EncryptionResponsePacket { shared_secret_length, verify_token_length }, at))
    }

    fn encode(&self, writer: &mut BytesMut) -> (r: Result<(), EncodeError>) {
        let start = writer.len();
        encode_field(&self.shared_secret_length, writer, start)?;
        encode_field(&self.verify_token_length, writer, start)?;
        Ok(())
    }
}

impl Packet for EncryptionResponsePacket {}

} // verus!
