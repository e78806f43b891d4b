//! A small packet to try the record codec on.

use crate::encoding::encode_field;
use crate::encoding::Encodable;
use crate::error::DecodeError;
use crate::error::EncodeError;
use crate::packet::Packet;
use bytes::BytesMut;
use std::marker::PhantomData;
use vstd::prelude::*;

verus! {

/// A packet with one field, which is a record itself.
pub struct TestPacket<'a> {
    pub test: Test<'a>,
}

/// A record of one string.
pub struct Test<'a> {
    pub val: String,
    pub phantom: PhantomData<&'a str>,
}

impl<'a> View for Test<'a> {
    type V = Seq<char>;

    open spec fn view(&self) -> Seq<char> {
        self.val@
    }
}

impl<'a> Encodable for Test<'a> {
    open spec fn wire(v: Seq<char>) -> Result<Seq<u8>, EncodeError> {
        String::wire(v)
    }

    open spec fn parse(bytes: Seq<u8>, at: int) -> Result<(Seq<char>, int), DecodeError> {
        String::parse(bytes, at)
    }

    open spec fn exact(v: Seq<char>) -> bool {
        String::exact(v)
    }

    proof fn lemma_round_trip(v: Seq<char>, before: Seq<u8>, after: Seq<u8>) {
        String::lemma_round_trip(v, before, after);
    }

    fn decode_at(bytes: &[u8], at: usize) -> (r: Result<(Self, usize), DecodeError>) {
        let (val, at) = String::decode_at(bytes, at)?;
        Ok((Test { val, phantom: PhantomData }, at))
    }

    fn encode(&self, writer: &mut BytesMut) -> (r: Result<(), EncodeError>) {
        self.val.encode(writer)?;
        Ok(())
    }
}

impl<'a> View for TestPacket<'a> {
    type V = Seq<char>;

    open spec fn view(&self) -> Seq<char> {
        self.test@
    }
}

impl<'a> Encodable for TestPacket<'a> {
    open spec fn wire(v: Seq<char>) -> Result<Seq<u8>, EncodeError> {
        Test::wire(v)
    }

    open spec fn parse(bytes: Seq<u8>, at: int) -> Result<(Seq<char>, int), DecodeError> {
        Test::parse(bytes, at)
    }

    open spec fn exact(v: Seq<char>) -> bool {
        Test::exact(v)
    }

    proof fn lemma_round_trip(v: Seq<char>, before: Seq<u8>, after: Seq<u8>) {
        Test::lemma_round_trip(v, before, after);
    }

    fn decode_at(bytes: &[u8], at: usize) -> (r: Result<(Self, usize), DecodeError>) {
        let (test, at) = Test::decode_at(bytes, at)?;
        Ok((TestPacket { test }, at))
    }

    fn encode(&self, writer: &mut BytesMut) -> (r: Result<(), EncodeError>) {
        let start = writer.len();
        encode_field(&self.test, writer, start)?;
        Ok(())
    }
}

impl<'a> Packet for TestPacket<'a> {}

} // verus!
