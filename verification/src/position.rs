//! A block position: three coordinates packed into one 64-bit word.
//!
//! From the highest bit down the word holds 26 bits of `x`, 26 bits of `z`
//! and 12 bits of `y`, each in two's complement.

use crate::encoding::numbers::be_bytes;
use crate::encoding::numbers::be_parse;
use crate::encoding::numbers::lemma_be_bytes_len;
use crate::encoding::numbers::lemma_be_round_trip;
use crate::encoding::numbers::lemma_i16_bits;
use crate::encoding::numbers::lemma_i32_bits;
use crate::encoding::numbers::lemma_radix_pow_values;
use crate::encoding::numbers::read_be;
use crate::encoding::numbers::to_signed;
use crate::encoding::numbers::write_be;
use crate::encoding::numbers::Float;
use crate::encoding::Encodable;
use crate::error::DecodeError;
use crate::error::EncodeError;
use bytes::BytesMut;
use vstd::prelude::*;

verus! {

/// A rotation.
pub type Angle = Float;

/// The position of a block in the world.
#[derive(Debug, Clone, Copy, PartialEq, Eq, Structural)]
pub struct Position {
    pub x: i32,
    pub y: i16,
    pub z: i32,
}

impl View for Position {
    type V = Position;

    open spec fn view(&self) -> Position {
        *self
    }
}

/// The word that holds the low bits of the three coordinates of `p`.
pub open spec fn packed(p: Position) -> nat {
    ((p.x as int % 0x400_0000) * 0x40_0000_0000 + (p.z as int % 0x400_0000) * 0x1000 + (p.y as int
        % 0x1000)) as nat
}

/// The position whose coordinates the 64-bit word `word` holds.
pub open spec fn unpacked(word: nat) -> Position {
    Position {
        x: to_signed(word / 0x40_0000_0000, 0x400_0000) as i32,
        y: to_signed(word % 0x1000, 0x1000) as i16,
        z: to_signed((word / 0x1000) % 0x400_0000, 0x400_0000) as i32,
    }
}

/// Whether each coordinate of `p` fits the bits that the word has for it.
pub open spec fn in_range(p: Position) -> bool {
    &&& -0x200_0000 <= p.x < 0x200_0000
    &&& -0x800 <= p.y < 0x800
    &&& -0x200_0000 <= p.z < 0x200_0000
}

/// Packing keeps every position whose coordinates are in range.
pub proof fn lemma_unpacked_packed(p: Position)
    requires
        in_range(p),
    ensures
        packed(p) < 0x1_0000_0000_0000_0000,
        unpacked(packed(p)) == p,
{
    let x = p.x as int % 0x400_0000;
    let z = p.z as int % 0x400_0000;
    let y = p.y as int % 0x1000;
    let word = packed(p);
    assert(word == x * 0x40_0000_0000 + (z * 0x1000 + y));
    assert(word / 0x40_0000_0000 == x);
    assert(word % 0x1000 == y);
    assert(word / 0x1000 == x * 0x400_0000 + z);
    assert((word / 0x1000) % 0x400_0000 == z);
}

/// Masking the low bits is taking the remainder by a power of two.
proof fn lemma_low_bits(bits: u32)
    by (bit_vector)
    ensures
        bits & 0x3ff_ffff == bits % 0x400_0000,
        bits & 0xfff == bits % 0x1000,
{
}

/// Shifting the three parts into place and or-ing them is adding them at
/// their scales.
proof fn lemma_word_joins(x: u64, y: u64, z: u64)
    by (bit_vector)
    requires
        x < 0x400_0000,
        z < 0x400_0000,
        y < 0x1000,
    ensures
        (x << 38) | (z << 12) | y == x * 0x40_0000_0000 + z * 0x1000 + y,
{
}

/// Shifting a part up to the top and down again reads it with its sign.
proof fn lemma_word_splits(word: u64)
    by (bit_vector)
    ensures
        word >> 38 == word / 0x40_0000_0000,
        word >> 38 < 0x200_0000 ==> ((word as i64) >> 38) as i32 == word >> 38,
        word >> 38 >= 0x200_0000 ==> ((word as i64) >> 38) as i32 == (word >> 38) - 0x400_0000,
        (word >> 12) & 0x3ff_ffff == (word / 0x1000) % 0x400_0000,
        (word >> 12) & 0x3ff_ffff < 0x200_0000 ==> (((word as i64) << 26) >> 38) as i32 == (word
            >> 12) & 0x3ff_ffff,
        (word >> 12) & 0x3ff_ffff >= 0x200_0000 ==> (((word as i64) << 26) >> 38) as i32 == ((word
            >> 12) & 0x3ff_ffff) - 0x400_0000,
        word & 0xfff == word % 0x1000,
        word & 0xfff < 0x800 ==> (((word as i64) << 52) >> 52) as i16 == word & 0xfff,
        word & 0xfff >= 0x800 ==> (((word as i64) << 52) >> 52) as i16 == (word & 0xfff) - 0x1000,
{
}

impl Encodable for Position {
    open spec fn wire(v: Position) -> Result<Seq<u8>, EncodeError> {
        Ok(be_bytes(packed(v), 8))
    }

    open spec fn parse(bytes: Seq<u8>, at: int) -> Result<(Position, int), DecodeError> {
        match be_parse(bytes, at, 8) {
            Ok((word, next)) => Ok((unpacked(word), next)),
            Err(e) => Err(e),
        }
    }

    open spec fn exact(v: Position) -> bool {
        in_range(v)
    }

    proof fn lemma_round_trip(v: Position, before: Seq<u8>, after: Seq<u8>) {
        lemma_unpacked_packed(v);
        lemma_radix_pow_values();
        lemma_be_bytes_len(packed(v), 8);
        lemma_be_round_trip(packed(v), 8, before, after);
    }

    fn decode_at(bytes: &[u8], at: usize) -> (r: Result<(Position, usize), DecodeError>) {
        let (word, next) = read_be(bytes, at, 8)?;
        proof {
            lemma_word_splits(word);
        }
        let value = word as i64;
        let x = (value >> 38) as i32;
        let y = ((value << 52) >> 52) as i16;
        let z = ((value << 26) >> 38) as i32;
        Ok((Position { x, y, z }, next))
    }

    fn encode(&self, writer: &mut BytesMut) -> (r: Result<(), EncodeError>) {
        let x = (self.x as u32 & 0x3ff_ffff) as u64;
        let z = (self.z as u32 & 0x3ff_ffff) as u64;
        let y = (self.y as u16 as u32 & 0xfff) as u64;
        proof {
            lemma_i32_bits(self.x, 0);
            lemma_i32_bits(self.z, 0);
            lemma_i16_bits(self.y, 0);
            lemma_low_bits(self.x as u32);
            lemma_low_bits(self.z as u32);
            lemma_low_bits(self.y as u16 as u32);
            lemma_word_joins(x, y, z);
        }
        write_be((x << 38) | (z << 12) | y, 8, writer);
        Ok(())
    }
}

} // verus!
