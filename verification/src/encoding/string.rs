//! Text: the number of its UTF-8 bytes as a `VarInt`, then the bytes.

use crate::encoding::Encodable;
use crate::error::DecodeError;
use crate::error::EncodeError;
use crate::varint::unsigned32;
use crate::varint::varint_bytes;
use crate::varint::VarInt;
use bytes::BytesMut;
use vstd::prelude::*;
use vstd::slice::slice_to_vec;
use vstd::utf8::decode_utf8;
use vstd::utf8::encode_utf8;
use vstd::utf8::encode_utf8_decode_utf8;
use vstd::utf8::encode_utf8_valid_utf8;
use vstd::utf8::valid_utf8;

verus! {

/// The text whose UTF-8 form is `bytes`, if they are one.
///
/// Not proved: this states of `String::from_utf8` that it accepts the byte
/// sequences that are UTF-8 and no others, and that the string it gives is
/// made of the bytes it was given.
#[verifier::external_body]
fn string_from_utf8(bytes: Vec<u8>) -> (r: Option<String>)
    ensures
        r is Some <==> valid_utf8(bytes@),
        r matches Some(text) ==> encode_utf8(text@) == bytes@,
{
    String::from_utf8(bytes).ok()
}

impl Encodable for String {
    open spec fn wire(v: Seq<char>) -> Result<Seq<u8>, EncodeError> {
        let body = encode_utf8(v);
        if body.len() > i32::MAX {
            Err(EncodeError::TooLong)
        } else {
            Ok(varint_bytes(body.len()) + body)
        }
    }

    open spec fn parse(bytes: Seq<u8>, at: int) -> Result<(Seq<char>, int), DecodeError> {
        match VarInt::parse(bytes, at) {
            Err(e) => Err(e),
            Ok((length, start)) => {
                let end = start + length.0;
                if length.0 < 0 {
                    Err(DecodeError::NegativeLength)
                } else if end > bytes.len() {
                    Err(DecodeError::UnexpectedEof)
                } else if !valid_utf8(bytes.subrange(start, end)) {
                    Err(DecodeError::InvalidUtf8)
                } else {
                    Ok((decode_utf8(bytes.subrange(start, end)), end))
                }
            },
        }
    }

    open spec fn exact(v: Seq<char>) -> bool {
        true
    }

    proof fn lemma_round_trip(v: Seq<char>, before: Seq<u8>, after: Seq<u8>) {
        let body = encode_utf8(v);
        let length = VarInt(body.len() as i32);
        let head = varint_bytes(body.len());
        let bytes = before + (head + body) + after;
        assert(unsigned32(length.0) == body.len());
        VarInt::lemma_round_trip(length, before, body + after);
        assert(bytes =~= before + head + (body + after));
        let start = (before.len() + head.len()) as int;
        assert(bytes.subrange(start, start + body.len()) =~= body);
        encode_utf8_valid_utf8(v);
        encode_utf8_decode_utf8(v);
    }

    fn decode_at(bytes: &[u8], at: usize) -> (r: Result<(String, usize), DecodeError>) {
        let (length, start) = VarInt::decode_at(bytes, at)?;
        if length.0 < 0 {
            return Err(DecodeError::NegativeLength);
        }
        if bytes.len() - start < length.0 as usize {
            return Err(DecodeError::UnexpectedEof);
        }
        let end = start + length.0 as usize;
        match string_from_utf8(slice_to_vec(&bytes[start..end])) {
            Some(text) => {
                proof {
                    encode_utf8_decode_utf8(text@);
                }
                Ok((text, end))
            },
            None => Err(DecodeError::InvalidUtf8),
        }
    }

    fn encode(&self, writer: &mut BytesMut) -> (r: Result<(), EncodeError>) {
        let body = self.as_str().as_bytes();
        if body.len() > i32::MAX as usize {
            return Err(EncodeError::TooLong);
        }
        let length = VarInt(body.len() as i32);
        let _ = length.encode(writer);
        writer.extend_from_slice(body);
        Ok(())
    }
}

} // verus!
