//! Frames: a length, a packet id and a body, cut out of a stream of bytes.
//!
//! On the wire a frame is the length as a `VarInt`, then the id as a
//! `VarInt`, then the body. The length counts the bytes of the id and of the
//! body.

use crate::connection::PacketContainer;
use crate::encoding::Encodable;
use crate::error::DecodeError;
use crate::error::FrameError;
use crate::varint::lemma_varint_bytes_len;
use crate::varint::lemma_varint_parse_bounds;
use crate::varint::lemma_varint_parse_extends;
use crate::varint::lemma_varint_prefix_incomplete;
use crate::varint::unsigned32;
use crate::varint::varint_bytes;
use crate::varint::varint_limit;
use crate::varint::VarInt;
use crate::varint::MAX_VARINT_BYTES;
use vstd::prelude::*;
use vstd::slice::slice_to_vec;

verus! {

/// The largest length that a frame may state: what three bytes of length
/// prefix can hold.
pub const MAX_FRAME_LENGTH: i32 = 2097151;

/// What the front of a receive buffer holds.
pub enum FrameParse {
    /// Not yet a whole frame: more bytes have to arrive.
    Incomplete,
    /// Bytes that no frame starts with.
    Invalid(FrameError),
    /// A whole frame, which ends just before offset `next`.
    Complete { id: VarInt, length: VarInt, data: Seq<u8>, next: int },
}

/// Reads the front of `bytes` as a frame.
pub open spec fn parse_frame(bytes: Seq<u8>) -> FrameParse {
    match VarInt::parse(bytes, 0) {
        Err(DecodeError::UnexpectedEof) => FrameParse::Incomplete,
        Err(_) => FrameParse::Invalid(FrameError::LengthMalformed),
        Ok((length, start)) => {
            if length.0 <= 0 {
                FrameParse::Invalid(FrameError::LengthNotPositive)
            } else if length.0 > MAX_FRAME_LENGTH {
                FrameParse::Invalid(FrameError::TooLarge)
            } else if bytes.len() < start + length.0 {
                FrameParse::Incomplete
            } else {
                match VarInt::parse(bytes.take(start + length.0), start) {
                    Err(_) => FrameParse::Invalid(FrameError::IdMalformed),
                    Ok((id, body)) => FrameParse::Complete {
                        id,
                        length,
                        data: bytes.subrange(body, start + length.0),
                        next: start + length.0,
                    },
                }
            }
        },
    }
}

/// The bytes of the frame that carries packet `id` with body `data`.
pub open spec fn frame_bytes(id: VarInt, data: Seq<u8>) -> Seq<u8> {
    let id_bytes = varint_bytes(unsigned32(id.0));
    varint_bytes(id_bytes.len() + data.len()) + id_bytes + data
}

/// The frame that carries packet `id` with body `data`, unless the two are
/// more than a frame may hold.
pub open spec fn framed(id: VarInt, data: Seq<u8>) -> Result<Seq<u8>, FrameError> {
    if varint_bytes(unsigned32(id.0)).len() + data.len() > MAX_FRAME_LENGTH {
        Err(FrameError::TooLarge)
    } else {
        Ok(frame_bytes(id, data))
    }
}

/// A frame is cut out only when all of it is there, and the length that it
/// states is the number of bytes that its id and its body take.
pub proof fn lemma_frame_is_counted(bytes: Seq<u8>)
    ensures
        parse_frame(bytes) matches FrameParse::Complete { id, length, data, next } ==> {
            &&& 0 < length.0 <= MAX_FRAME_LENGTH
            &&& length.0 < next <= bytes.len()
            &&& data.len() < length.0
            &&& data == bytes.subrange(next - data.len(), next)
            &&& VarInt::parse(bytes.take(next), next - length.0) == Ok::<_, DecodeError>(
                (id, next - data.len()),
            )
        },
{
    lemma_varint_parse_bounds(bytes, 0, MAX_VARINT_BYTES as nat);
    match VarInt::parse(bytes, 0) {
        Ok((length, start)) => {
            lemma_varint_parse_bounds(bytes.take(start + length.0), start, MAX_VARINT_BYTES as nat);
        },
        Err(_) => {},
    }
}

/// A frame that was written is cut out again as it was, and what stands
/// behind it is left over: a buffer that holds one frame is empty afterwards,
/// and one that holds a frame and the start of another keeps that start.
pub proof fn lemma_frame_round_trip(id: VarInt, data: Seq<u8>, rest: Seq<u8>)
    requires
        framed(id, data) is Ok,
    ensures
        parse_frame(frame_bytes(id, data) + rest) == (FrameParse::Complete {
            id,
            length: VarInt((varint_bytes(unsigned32(id.0)).len() + data.len()) as i32),
            data,
            next: frame_bytes(id, data).len() as int,
        }),
        (frame_bytes(id, data) + rest).skip(frame_bytes(id, data).len() as int) == rest,
{
    let id_bytes = varint_bytes(unsigned32(id.0));
    let length = VarInt((id_bytes.len() + data.len()) as i32);
    let head = varint_bytes(unsigned32(length.0));
    let bytes = frame_bytes(id, data) + rest;
    lemma_varint_bytes_len(unsigned32(id.0));
    VarInt::lemma_round_trip(length, Seq::empty(), id_bytes + data + rest);
    assert(bytes =~= Seq::<u8>::empty() + head + (id_bytes + data + rest));
    let end = head.len() + length.0;
    VarInt::lemma_round_trip(id, head, data);
    assert(bytes.take(end) =~= head + id_bytes + data);
    assert(bytes.subrange((head.len() + id_bytes.len()) as int, end) =~= data);
    assert(bytes.skip(frame_bytes(id, data).len() as int) =~= rest);
}

/// While a frame has not arrived in full, the buffer is incomplete: nothing
/// is cut out and nothing is refused.
pub proof fn lemma_frame_prefix_incomplete(id: VarInt, data: Seq<u8>, kept: int)
    requires
        framed(id, data) is Ok,
        0 <= kept < frame_bytes(id, data).len(),
    ensures
        parse_frame(frame_bytes(id, data).take(kept)) == FrameParse::Incomplete,
{
    let id_bytes = varint_bytes(unsigned32(id.0));
    let length = VarInt((id_bytes.len() + data.len()) as i32);
    let head = varint_bytes(unsigned32(length.0));
    let bytes = frame_bytes(id, data).take(kept);
    lemma_varint_bytes_len(unsigned32(id.0));
    if kept < head.len() {
        reveal_with_fuel(varint_limit, 6);
        lemma_varint_prefix_incomplete(
            unsigned32(length.0),
            Seq::empty(),
            kept,
            MAX_VARINT_BYTES as nat,
        );
        assert(bytes =~= Seq::<u8>::empty() + head.take(kept));
    } else {
        let tail = (id_bytes + data).take(kept - head.len());
        VarInt::lemma_round_trip(length, Seq::empty(), tail);
        assert(bytes =~= Seq::<u8>::empty() + head + tail);
    }
}

/// What the front of a buffer holds is settled once it is a frame or is
/// refused: bytes that arrive later change nothing.
pub proof fn lemma_frame_extends(bytes: Seq<u8>, more: Seq<u8>)
    requires
        parse_frame(bytes) != FrameParse::Incomplete,
    ensures
        parse_frame(bytes + more) == parse_frame(bytes),
{
    lemma_varint_parse_extends(bytes, more, 0, MAX_VARINT_BYTES as nat);
    lemma_varint_parse_bounds(bytes, 0, MAX_VARINT_BYTES as nat);
    match VarInt::parse(bytes, 0) {
        Ok((length, start)) => {
            if 0 < length.0 <= MAX_FRAME_LENGTH {
                let end = start + length.0;
                assert(end <= bytes.len());
                assert((bytes + more).take(end) =~= bytes.take(end));
                match VarInt::parse(bytes.take(end), start) {
                    Ok((id, body)) => {
                        lemma_varint_parse_bounds(bytes.take(end), start, MAX_VARINT_BYTES as nat);
                        assert((bytes + more).subrange(body, end) =~= bytes.subrange(body, end));
                    },
                    Err(_) => {},
                }
            }
        },
        Err(_) => {},
    }
}

/// Cuts the first frame off the front of `buf`.
///
/// Gives `None` and leaves `buf` alone while the frame is not whole. Gives an
/// error and leaves `buf` alone when its front is no frame.
pub fn next_frame(buf: &mut Vec<u8>) -> (r: Result<Option<PacketContainer>, FrameError>)
    ensures
        match parse_frame(old(buf)@) {
            FrameParse::Incomplete => r matches Ok(None) && final(buf)@ == old(buf)@,
            FrameParse::Invalid(e) => r matches Err(err) && err == e && final(buf)@ == old(buf)@,
            FrameParse::Complete { id, length, data, next } => {
                &&& r matches Ok(Some(packet))
                &&& packet.id == id
                &&& packet.length == length
                &&& packet.data@ == data
                &&& final(buf)@ == old(buf)@.skip(next)
            },
        },
{
    let (length, start) = match VarInt::decode_at(buf.as_slice(), 0) {
        Ok(found) => found,
        Err(DecodeError::UnexpectedEof) => {
            return Ok(None);
        },
        Err(_) => {
            return Err(FrameError::LengthMalformed);
        },
    };
    if length.0 <= 0 {
        return Err(FrameError::LengthNotPositive);
    }
    if length.0 > MAX_FRAME_LENGTH {
        return Err(FrameError::TooLarge);
    }
    if buf.len() - start < length.0 as usize {
        return Ok(None);
    }
    let end = start + length.0 as usize;
    let (id, body) = match VarInt::decode_at(&buf.as_slice()[0..end], start) {
        Ok(found) => found,
        Err(_) => {
            return Err(FrameError::IdMalformed);
        },
    };
    let data = slice_to_vec(&buf.as_slice()[body..end]);
    let rest = buf.split_off(end);
    *buf = rest;
    Ok(Some(PacketContainer { id, length, data }))
}

} // verus!
