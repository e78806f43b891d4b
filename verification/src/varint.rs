//! The variable-length integer: seven bits of the value in each byte, the
//! lowest group first, the high bit of a byte telling that another follows.

use crate::encoding::Encodable;
use crate::error::DecodeError;
use crate::error::EncodeError;
use bytes::BytesMut;
use vstd::prelude::*;

verus! {

/// A 32-bit signed integer that travels in one to five bytes.
#[derive(Debug, Clone, Copy, PartialEq, Eq, Hash, Structural)]
pub struct VarInt(pub i32);

impl View for VarInt {
    type V = VarInt;

    open spec fn view(&self) -> VarInt {
        *self
    }
}

/// The value as an index. A value below zero wraps round, as a cast does.
impl From<VarInt> for usize {
    fn from(v: VarInt) -> (n: usize) {
        v.0 as usize
    }
}

impl vstd::std_specs::convert::FromSpecImpl<VarInt> for usize {
    open spec fn obeys_from_spec() -> bool {
        true
    }

    open spec fn from_spec(v: VarInt) -> usize {
        v.0 as usize
    }
}

/// The most bytes that a `VarInt` takes.
pub const MAX_VARINT_BYTES: usize = 5;

/// The number between 0 and 2^32 that has the bits of `v`.
pub open spec fn unsigned32(v: i32) -> nat {
    if v >= 0 {
        v as nat
    } else {
        (v + 0x1_0000_0000) as nat
    }
}

/// The signed number that has the low 32 bits of `u`.
pub open spec fn signed32(u: nat) -> i32 {
    let low = u % 0x1_0000_0000;
    if low < 0x8000_0000 {
        low as i32
    } else {
        (low - 0x1_0000_0000) as i32
    }
}

/// The groups of seven bits of `u`, lowest first, one in each byte; every
/// byte but the last has its high bit set.
pub open spec fn varint_bytes(u: nat) -> Seq<u8>
    decreases u,
{
    if u < 0x80 {
        seq![u as u8]
    } else {
        seq![(u % 0x80 + 0x80) as u8] + varint_bytes(u / 0x80)
    }
}

/// One more than the largest number that `budget` groups of seven bits hold.
pub open spec fn varint_limit(budget: nat) -> nat
    decreases budget,
{
    if budget == 0 {
        1
    } else {
        0x80 * varint_limit((budget - 1) as nat)
    }
}

/// The number whose groups start at `at` in `bytes`, read from at most
/// `budget` bytes, and the offset behind the last of them.
pub open spec fn varint_parse(bytes: Seq<u8>, at: int, budget: nat) -> Result<
    (nat, int),
    DecodeError,
>
    decreases budget,
{
    if budget == 0 {
        Err(DecodeError::VarIntTooLong)
    } else if !(0 <= at < bytes.len()) {
        Err(DecodeError::UnexpectedEof)
    } else if bytes[at] < 0x80 {
        Ok((bytes[at] as nat, at + 1))
    } else {
        match varint_parse(bytes, at + 1, (budget - 1) as nat) {
            Ok((higher, next)) => Ok(((bytes[at] - 0x80) as nat + 0x80 * higher, next)),
            Err(e) => Err(e),
        }
    }
}

/// A number that fits in `budget` groups is read back from its bytes, and
/// reading stops behind the last of them.
pub proof fn lemma_varint_round_trip(u: nat, before: Seq<u8>, after: Seq<u8>, budget: nat)
    requires
        budget >= 1,
        u < varint_limit(budget),
    ensures
        varint_parse(before + varint_bytes(u) + after, before.len() as int, budget) == Ok::<
            _,
            DecodeError,
        >((u, (before.len() + varint_bytes(u).len()) as int)),
    decreases budget,
{
    let bytes = before + varint_bytes(u) + after;
    if u < 0x80 {
        assert(bytes[before.len() as int] == u as u8);
    } else {
        let first = (u % 0x80 + 0x80) as u8;
        assert(bytes[before.len() as int] == first);
        assert(budget >= 2) by {
            reveal_with_fuel(varint_limit, 2);
        }
        lemma_varint_round_trip(u / 0x80, before + seq![first], after, (budget - 1) as nat);
        assert(bytes =~= (before + seq![first]) + varint_bytes(u / 0x80) + after);
    }
}

/// While the bytes of a number have not all arrived, reading says that the
/// input has ended, not that it is wrong.
pub proof fn lemma_varint_prefix_incomplete(u: nat, before: Seq<u8>, kept: int, budget: nat)
    requires
        budget >= 1,
        u < varint_limit(budget),
        0 <= kept < varint_bytes(u).len(),
    ensures
        varint_parse(before + varint_bytes(u).take(kept), before.len() as int, budget) == Err::<
            (nat, int),
            _,
        >(DecodeError::UnexpectedEof),
    decreases budget,
{
    let bytes = before + varint_bytes(u).take(kept);
    if kept > 0 {
        let first = (u % 0x80 + 0x80) as u8;
        assert(u >= 0x80);
        assert(bytes[before.len() as int] == first);
        assert(budget >= 2) by {
            reveal_with_fuel(varint_limit, 2);
        }
        lemma_varint_prefix_incomplete(
            u / 0x80,
            before + seq![first],
            kept - 1,
            (budget - 1) as nat,
        );
        assert(bytes =~= (before + seq![first]) + varint_bytes(u / 0x80).take(kept - 1));
    }
}

/// What has been read stays read when more bytes arrive: unless reading ran
/// out of input, bytes added at the end change nothing.
pub proof fn lemma_varint_parse_extends(bytes: Seq<u8>, more: Seq<u8>, at: int, budget: nat)
    requires
        varint_parse(bytes, at, budget) != Err::<(nat, int), _>(DecodeError::UnexpectedEof),
    ensures
        varint_parse(bytes + more, at, budget) == varint_parse(bytes, at, budget),
    decreases budget,
{
    if budget > 0 && 0 <= at < bytes.len() {
        assert((bytes + more)[at] == bytes[at]);
        if bytes[at] >= 0x80 {
            lemma_varint_parse_extends(bytes, more, at + 1, (budget - 1) as nat);
        }
    }
}

/// What was read lies inside the input: reading moves ahead by at least one
/// byte and by no more than `budget`, and stays within `bytes`.
pub proof fn lemma_varint_parse_bounds(bytes: Seq<u8>, at: int, budget: nat)
    ensures
        varint_parse(bytes, at, budget) matches Ok((u, next)) ==> at < next <= bytes.len() && next
            <= at + budget,
    decreases budget,
{
    if budget > 0 && 0 <= at < bytes.len() && bytes[at] >= 0x80 {
        lemma_varint_parse_bounds(bytes, at + 1, (budget - 1) as nat);
    }
}

/// Every number takes at least one byte, and one below 2^32 at most five.
pub proof fn lemma_varint_bytes_len(u: nat)
    ensures
        varint_bytes(u).len() >= 1,
        u < 0x1_0000_0000 ==> varint_bytes(u).len() <= MAX_VARINT_BYTES,
{
    reveal_with_fuel(varint_bytes, 6);
}

/// What `varint_parse` gives for the whole when the groups read so far add
/// up to `low` and the rest, read next, counts in units of `scale`.
spec fn varint_resume(rest: Result<(nat, int), DecodeError>, low: nat, scale: nat) -> Result<
    (nat, int),
    DecodeError,
> {
    match rest {
        Ok((higher, next)) => Ok((low + scale * higher, next)),
        Err(e) => Err(e),
    }
}

/// Reading one more group of a number is reading the rest at 128 times the
/// scale.
proof fn lemma_resume_step(bytes: Seq<u8>, at: int, budget: nat, low: nat, scale: nat)
    requires
        budget > 0,
        0 <= at < bytes.len(),
        bytes[at] >= 0x80,
    ensures
        varint_resume(varint_parse(bytes, at, budget), low, scale) == varint_resume(
            varint_parse(bytes, at + 1, (budget - 1) as nat),
            low + scale * (bytes[at] - 0x80) as nat,
            0x80 * scale,
        ),
{
    match varint_parse(bytes, at + 1, (budget - 1) as nat) {
        Ok((higher, next)) => {
            let group = (bytes[at] - 0x80) as nat;
            assert(low + scale * (group + 0x80 * higher) == low + scale * group + (0x80 * scale)
                * higher) by (nonlinear_arith);
        },
        Err(e) => {},
    }
}

/// Or-ing a group in above the bits read so far adds it at its scale.
proof fn lemma_group_joins(acc: u64, byte: u8, shift: u32)
    by (bit_vector)
    requires
        shift <= 28,
        acc < (1u64 << shift),
    ensures
        acc | (((byte & 0x7f) as u64) << shift) == acc + (1u64 << shift) * ((byte & 0x7f) as u64),
        acc | (((byte & 0x7f) as u64) << shift) < (1u64 << ((shift + 7) as u32)),
        (1u64 << ((shift + 7) as u32)) == 0x80 * (1u64 << shift),
        byte & 0x80 == 0 <==> byte < 0x80,
        byte < 0x80 ==> byte & 0x7f == byte,
        byte >= 0x80 ==> byte & 0x7f == byte - 0x80,
{
}

/// Cutting an accumulator to 32 bits and reading them as signed is
/// `signed32`.
proof fn lemma_low_bits_signed(acc: u64)
    by (bit_vector)
    ensures
        acc % 0x1_0000_0000 < 0x8000_0000 ==> (acc as u32) as i32 == acc % 0x1_0000_0000,
        acc % 0x1_0000_0000 >= 0x8000_0000 ==> (acc as u32) as i32 == acc % 0x1_0000_0000
            - 0x1_0000_0000,
{
}

/// A cast to unsigned keeps the bits: it is `unsigned32`.
proof fn lemma_same_bits(v: i32)
    by (bit_vector)
    ensures
        v >= 0 ==> v as u32 == v,
        v < 0 ==> v as u32 == v + 0x1_0000_0000,
{
}

/// Masking and shifting take a number apart as remainder and quotient by 128.
proof fn lemma_low_group(u: u32)
    by (bit_vector)
    requires
        u >= 0x80,
    ensures
        (u & 0x7f) as u8 | 0x80 == u % 0x80 + 0x80,
        u >> 7 == u / 0x80,
        u >> 7 < u,
{
}

impl Encodable for VarInt {
    open spec fn wire(v: VarInt) -> Result<Seq<u8>, EncodeError> {
        Ok(varint_bytes(unsigned32(v.0)))
    }

    open spec fn parse(bytes: Seq<u8>, at: int) -> Result<(VarInt, int), DecodeError> {
        match varint_parse(bytes, at, MAX_VARINT_BYTES as nat) {
            Ok((u, next)) => Ok((VarInt(signed32(u)), next)),
            Err(e) => Err(e),
        }
    }

    open spec fn exact(v: VarInt) -> bool {
        true
    }

    proof fn lemma_round_trip(v: VarInt, before: Seq<u8>, after: Seq<u8>) {
        reveal_with_fuel(varint_limit, 6);
        lemma_varint_round_trip(unsigned32(v.0), before, after, MAX_VARINT_BYTES as nat);
    }

    fn decode_at(bytes: &[u8], at: usize) -> (r: Result<(VarInt, usize), DecodeError>) {
        let mut acc: u64 = 0;
        let mut shift: u32 = 0;
        let mut pos: usize = at;
        let mut count: usize = 0;
        proof {
            assert((1u64 << 0u32) == 1) by (bit_vector);
        }
        while count < MAX_VARINT_BYTES
            invariant
                count <= MAX_VARINT_BYTES,
                shift == 7 * count,
                pos == at + count,
                pos <= bytes@.len(),
                acc < (1u64 << shift),
                varint_parse(bytes@, at as int, MAX_VARINT_BYTES as nat) == varint_resume(
                    varint_parse(bytes@, pos as int, (MAX_VARINT_BYTES - count) as nat),
                    acc as nat,
                    (1u64 << shift) as nat,
                ),
            decreases MAX_VARINT_BYTES - count,
        {
            if pos >= bytes.len() {
                return Err(DecodeError::UnexpectedEof);
            }
            let byte = bytes[pos];
            proof {
                lemma_group_joins(acc, byte, shift);
                if byte >= 0x80 {
                    lemma_resume_step(
                        bytes@,
                        pos as int,
                        (MAX_VARINT_BYTES - count) as nat,
                        acc as nat,
                        (1u64 << shift) as nat,
                    );
                }
            }
            acc = acc | (((byte & 0x7f) as u64) << shift);
            pos += 1;
            if byte & 0x80 == 0 {
                proof {
                    lemma_low_bits_signed(acc);
                }
                return Ok((VarInt(acc as u32 as i32), pos));
            }
            shift += 7;
            count += 1;
        }
        Err(DecodeError::VarIntTooLong)
    }

    fn encode(&self, writer: &mut BytesMut) -> (r: Result<(), EncodeError>) {
        let mut remaining = self.0 as u32;
        let mut out: Vec<u8> = Vec::new();
        proof {
            lemma_same_bits(self.0);
        }
        while remaining >= 0x80
            invariant
                varint_bytes(unsigned32(self.0)) == out@ + varint_bytes(remaining as nat),
            decreases remaining,
        {
            proof {
                lemma_low_group(remaining);
            }
            out.push((remaining & 0x7f) as u8 | 0x80);
            remaining = remaining >> 7;
        }
        out.push(remaining as u8);
        writer.extend_from_slice(out.as_slice());
        Ok(())
    }
}

} // verus!
