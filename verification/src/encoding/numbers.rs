//! Integers of fixed width, most significant byte first.

use crate::buffer::bytes_of;
use crate::encoding::Encodable;
use crate::error::DecodeError;
use crate::error::EncodeError;
use bytes::BytesMut;
use vstd::prelude::*;

verus! {

/// The `width` lowest base-256 digits of `value`, highest first.
pub open spec fn be_bytes(value: nat, width: nat) -> Seq<u8>
    decreases width,
{
    if width == 0 {
        Seq::empty()
    } else {
        be_bytes(value / 0x100, (width - 1) as nat).push((value % 0x100) as u8)
    }
}

/// The number whose base-256 digits are `bytes`, highest first.
pub open spec fn be_value(bytes: Seq<u8>) -> nat
    decreases bytes.len(),
{
    if bytes.len() == 0 {
        0
    } else {
        be_value(bytes.drop_last()) * 0x100 + bytes.last() as nat
    }
}

/// 256 to the power of `width`: how many numbers `width` bytes can tell
/// apart.
pub open spec fn radix_pow(width: nat) -> nat
    decreases width,
{
    if width == 0 {
        1
    } else {
        0x100 * radix_pow((width - 1) as nat)
    }
}

/// The number that `width` bytes at `at` spell, and the offset behind them.
pub open spec fn be_parse(bytes: Seq<u8>, at: int, width: nat) -> Result<(nat, int), DecodeError> {
    if 0 <= at && at + width <= bytes.len() {
        Ok((be_value(bytes.subrange(at, at + width)), at + width))
    } else {
        Err(DecodeError::UnexpectedEof)
    }
}

/// The number between 0 and `modulus` that agrees with `v` in the low bits:
/// two's complement.
pub open spec fn to_unsigned(v: int, modulus: nat) -> nat {
    if v < 0 {
        (v + modulus) as nat
    } else {
        v as nat
    }
}

/// The number in the signed range that agrees with `u` in the low bits.
pub open spec fn to_signed(u: nat, modulus: nat) -> int {
    if 2 * u >= modulus {
        u - modulus
    } else {
        u as int
    }
}

pub proof fn lemma_radix_pow_values()
    ensures
        radix_pow(0) == 1,
        radix_pow(1) == 0x100,
        radix_pow(2) == 0x1_0000,
        radix_pow(3) == 0x100_0000,
        radix_pow(4) == 0x1_0000_0000,
        radix_pow(5) == 0x100_0000_0000,
        radix_pow(6) == 0x1_0000_0000_0000,
        radix_pow(7) == 0x100_0000_0000_0000,
        radix_pow(8) == 0x1_0000_0000_0000_0000,
{
    reveal_with_fuel(radix_pow, 9);
}

/// Digits have the length asked for.
pub proof fn lemma_be_bytes_len(value: nat, width: nat)
    ensures
        be_bytes(value, width).len() == width,
    decreases width,
{
    if width > 0 {
        lemma_be_bytes_len(value / 0x100, (width - 1) as nat);
    }
}

/// Bytes spell a number below 256 to the power of their count.
pub proof fn lemma_be_value_bound(bytes: Seq<u8>)
    ensures
        be_value(bytes) < radix_pow(bytes.len()),
    decreases bytes.len(),
{
    if bytes.len() > 0 {
        lemma_be_value_bound(bytes.drop_last());
    }
}

/// A number that `width` digits can hold is the number that its digits
/// spell.
pub proof fn lemma_be_value_of_bytes(value: nat, width: nat)
    requires
        value < radix_pow(width),
    ensures
        be_value(be_bytes(value, width)) == value,
    decreases width,
{
    if width > 0 {
        let digits = be_bytes(value, width);
        lemma_be_value_of_bytes(value / 0x100, (width - 1) as nat);
        assert(digits.drop_last() =~= be_bytes(value / 0x100, (width - 1) as nat));
    }
}

/// Bytes are the digits of the number that they spell.
pub proof fn lemma_be_bytes_of_value(bytes: Seq<u8>)
    ensures
        be_bytes(be_value(bytes), bytes.len()) == bytes,
    decreases bytes.len(),
{
    if bytes.len() > 0 {
        lemma_be_bytes_of_value(bytes.drop_last());
        assert(be_bytes(be_value(bytes), bytes.len()) =~= bytes);
    }
}

/// Digits written between other bytes are read back as the number, and
/// reading stops behind them.
pub proof fn lemma_be_round_trip(value: nat, width: nat, before: Seq<u8>, after: Seq<u8>)
    requires
        value < radix_pow(width),
    ensures
        be_parse(before + be_bytes(value, width) + after, before.len() as int, width) == Ok::<
            _,
            DecodeError,
        >((value, (before.len() + width) as int)),
{
    let bytes = before + be_bytes(value, width) + after;
    lemma_be_bytes_len(value, width);
    lemma_be_value_of_bytes(value, width);
    assert(bytes.subrange(before.len() as int, (before.len() + width) as int) =~= be_bytes(
        value,
        width,
    ));
}

/// Reads `width` bytes at `at` as one number.
pub fn read_be(bytes: &[u8], at: usize, width: usize) -> (r: Result<(u64, usize), DecodeError>)
    requires
        width <= 8,
        at <= bytes@.len(),
    ensures
        match be_parse(bytes@, at as int, width as nat) {
            Ok((value, next)) => r matches Ok((raw, n)) && raw == value && n == next && value
                < radix_pow(width as nat),
            Err(e) => r == Err::<(u64, usize), _>(e),
        },
{
    if bytes.len() - at < width {
        return Err(DecodeError::UnexpectedEof);
    }
    let mut value: u64 = 0;
    let mut count: usize = 0;
    proof {
        lemma_radix_pow_values();
    }
    while count < width
        invariant
            count <= width <= 8,
            at + width <= bytes@.len() <= usize::MAX,
            value == be_value(bytes@.subrange(at as int, at + count)),
            value < radix_pow(count as nat),
        decreases width - count,
    {
        let byte = bytes[at + count];
        proof {
            let longer = bytes@.subrange(at as int, at + count + 1);
            assert(longer.drop_last() =~= bytes@.subrange(at as int, at + count));
            lemma_radix_pow_values();
            assert(radix_pow(count as nat) <= 0x100_0000_0000_0000);
        }
        value = value * 0x100 + byte as u64;
        count += 1;
    }
    Ok((value, at + width))
}

/// Writes the `width` lowest base-256 digits of `value`, highest first.
pub fn write_be(value: u64, width: usize, writer: &mut BytesMut)
    requires
        width <= 8,
    ensures
        bytes_of(*final(writer)) == bytes_of(*old(writer)) + be_bytes(value as nat, width as nat),
{
    let mut digits = [0u8;8];
    let mut rest = value;
    let mut left = width;
    while left > 0
        invariant
            left <= width <= 8,
            be_bytes(value as nat, width as nat) == be_bytes(rest as nat, left as nat)
                + digits@.subrange(left as int, width as int),
        decreases left,
    {
        let ghost before = digits@;
        left -= 1;
        digits[left] = (rest % 0x100) as u8;
        proof {
            assert(digits@.subrange(left as int, width as int) =~= seq![(rest % 0x100) as u8]
                + before.subrange(left + 1, width as int));
            assert(be_bytes(rest as nat, (left + 1) as nat) + before.subrange(
                left + 1,
                width as int,
            ) =~= be_bytes((rest / 0x100) as nat, left as nat) + digits@.subrange(
                left as int,
                width as int,
            ));
        }
        rest = rest / 0x100;
    }
    assert(be_bytes(rest as nat, 0) + digits@.subrange(0, width as int) =~= digits@.subrange(
        0,
        width as int,
    ));
    writer.extend_from_slice(&digits[0..width]);
}


/// An unsigned integer in one byte.
impl Encodable for u8 {
    open spec fn wire(v: u8) -> Result<Seq<u8>, EncodeError> {
        Ok(be_bytes(v as nat, 1))
    }

    open spec fn parse(bytes: Seq<u8>, at: int) -> Result<(u8, int), DecodeError> {
        match be_parse(bytes, at, 1) {
            Ok((raw, next)) => Ok((raw as u8, next)),
            Err(e) => Err(e),
        }
    }

    open spec fn exact(v: u8) -> bool {
        true
    }

    proof fn lemma_round_trip(v: u8, before: Seq<u8>, after: Seq<u8>) {
        lemma_radix_pow_values();
        lemma_be_bytes_len(v as nat, 1);
        lemma_be_round_trip(v as nat, 1, before, after);
    }

    fn decode_at(bytes: &[u8], at: usize) -> (r: Result<(u8, usize), DecodeError>) {
        proof {
            lemma_radix_pow_values();
        }
        let (raw, next) = read_be(bytes, at, 1)?;
        Ok((raw as u8, next))
    }

    fn encode(&self, writer: &mut BytesMut) -> (r: Result<(), EncodeError>) {
        write_be(*self as u64, 1, writer);
        Ok(())
    }
}

/// A cast between `i8` and `u8` keeps the bits: it is two's complement.
pub proof fn lemma_i8_bits(v: i8, raw: u8)
    by (bit_vector)
    ensures
        v >= 0 ==> v as u8 == v,
        v < 0 ==> v as u8 == v + 0x100,
        raw < 0x80 ==> raw as i8 == raw,
        raw >= 0x80 ==> raw as i8 == raw - 0x100,
{
}

/// A signed integer in one byte, in two's complement.
impl Encodable for i8 {
    open spec fn wire(v: i8) -> Result<Seq<u8>, EncodeError> {
        Ok(be_bytes(to_unsigned(v as int, 0x100), 1))
    }

    open spec fn parse(bytes: Seq<u8>, at: int) -> Result<(i8, int), DecodeError> {
        match be_parse(bytes, at, 1) {
            Ok((raw, next)) => Ok((to_signed(raw, 0x100) as i8, next)),
            Err(e) => Err(e),
        }
    }

    open spec fn exact(v: i8) -> bool {
        true
    }

    proof fn lemma_round_trip(v: i8, before: Seq<u8>, after: Seq<u8>) {
        let raw = to_unsigned(v as int, 0x100);
        lemma_radix_pow_values();
        lemma_be_bytes_len(raw, 1);
        lemma_be_round_trip(raw, 1, before, after);
    }

    fn decode_at(bytes: &[u8], at: usize) -> (r: Result<(i8, usize), DecodeError>) {
        proof {
            lemma_radix_pow_values();
        }
        let (raw, next) = read_be(bytes, at, 1)?;
        proof {
            lemma_i8_bits(0, raw as u8);
        }
        Ok((raw as u8 as i8, next))
    }

    fn encode(&self, writer: &mut BytesMut) -> (r: Result<(), EncodeError>) {
        proof {
            lemma_i8_bits(*self, 0);
        }
        write_be(*self as u8 as u64, 1, writer);
        Ok(())
    }
}

/// An unsigned integer in two bytes.
impl Encodable for u16 {
    open spec fn wire(v: u16) -> Result<Seq<u8>, EncodeError> {
        Ok(be_bytes(v as nat, 2))
    }

    open spec fn parse(bytes: Seq<u8>, at: int) -> Result<(u16, int), DecodeError> {
        match be_parse(bytes, at, 2) {
            Ok((raw, next)) => Ok((raw as u16, next)),
            Err(e) => Err(e),
        }
    }

    open spec fn exact(v: u16) -> bool {
        true
    }

    proof fn lemma_round_trip(v: u16, before: Seq<u8>, after: Seq<u8>) {
        lemma_radix_pow_values();
        lemma_be_bytes_len(v as nat, 2);
        lemma_be_round_trip(v as nat, 2, before, after);
    }

    fn decode_at(bytes: &[u8], at: usize) -> (r: Result<(u16, usize), DecodeError>) {
        proof {
            lemma_radix_pow_values();
        }
        let (raw, next) = read_be(bytes, at, 2)?;
        Ok((raw as u16, next))
    }

    fn encode(&self, writer: &mut BytesMut) -> (r: Result<(), EncodeError>) {
        write_be(*self as u64, 2, writer);
        Ok(())
    }
}

/// A cast between `i16` and `u16` keeps the bits: it is two's complement.
pub proof fn lemma_i16_bits(v: i16, raw: u16)
    by (bit_vector)
    ensures
        v >= 0 ==> v as u16 == v,
        v < 0 ==> v as u16 == v + 0x1_0000,
        raw < 0x8000 ==> raw as i16 == raw,
        raw >= 0x8000 ==> raw as i16 == raw - 0x1_0000,
{
}

/// A signed integer in two bytes, in two's complement.
impl Encodable for i16 {
    open spec fn wire(v: i16) -> Result<Seq<u8>, EncodeError> {
        Ok(be_bytes(to_unsigned(v as int, 0x1_0000), 2))
    }

    open spec fn parse(bytes: Seq<u8>, at: int) -> Result<(i16, int), DecodeError> {
        match be_parse(bytes, at, 2) {
            Ok((raw, next)) => Ok((to_signed(raw, 0x1_0000) as i16, next)),
            Err(e) => Err(e),
        }
    }

    open spec fn exact(v: i16) -> bool {
        true
    }

    proof fn lemma_round_trip(v: i16, before: Seq<u8>, after: Seq<u8>) {
        let raw = to_unsigned(v as int, 0x1_0000);
        lemma_radix_pow_values();
        lemma_be_bytes_len(raw, 2);
        lemma_be_round_trip(raw, 2, before, after);
    }

    fn decode_at(bytes: &[u8], at: usize) -> (r: Result<(i16, usize), DecodeError>) {
        proof {
            lemma_radix_pow_values();
        }
        let (raw, next) = read_be(bytes, at, 2)?;
        proof {
            lemma_i16_bits(0, raw as u16);
        }
        Ok((raw as u16 as i16, next))
    }

    fn encode(&self, writer: &mut BytesMut) -> (r: Result<(), EncodeError>) {
        proof {
            lemma_i16_bits(*self, 0);
        }
        write_be(*self as u16 as u64, 2, writer);
        Ok(())
    }
}

/// An unsigned integer in four bytes.
impl Encodable for u32 {
    open spec fn wire(v: u32) -> Result<Seq<u8>, EncodeError> {
        Ok(be_bytes(v as nat, 4))
    }

    open spec fn parse(bytes: Seq<u8>, at: int) -> Result<(u32, int), DecodeError> {
        match be_parse(bytes, at, 4) {
            Ok((raw, next)) => Ok((raw as u32, next)),
            Err(e) => Err(e),
        }
    }

    open spec fn exact(v: u32) -> bool {
        true
    }

    proof fn lemma_round_trip(v: u32, before: Seq<u8>, after: Seq<u8>) {
        lemma_radix_pow_values();
        lemma_be_bytes_len(v as nat, 4);
        lemma_be_round_trip(v as nat, 4, before, after);
    }

    fn decode_at(bytes: &[u8], at: usize) -> (r: Result<(u32, usize), DecodeError>) {
        proof {
            lemma_radix_pow_values();
        }
        let (raw, next) = read_be(bytes, at, 4)?;
        Ok((raw as u32, next))
    }

    fn encode(&self, writer: &mut BytesMut) -> (r: Result<(), EncodeError>) {
        write_be(*self as u64, 4, writer);
        Ok(())
    }
}

/// A cast between `i32` and `u32` keeps the bits: it is two's complement.
pub proof fn lemma_i32_bits(v: i32, raw: u32)
    by (bit_vector)
    ensures
        v >= 0 ==> v as u32 == v,
        v < 0 ==> v as u32 == v + 0x1_0000_0000,
        raw < 0x8000_0000 ==> raw as i32 == raw,
        raw >= 0x8000_0000 ==> raw as i32 == raw - 0x1_0000_0000,
{
}

/// A signed integer in four bytes, in two's complement.
impl Encodable for i32 {
    open spec fn wire(v: i32) -> Result<Seq<u8>, EncodeError> {
        Ok(be_bytes(to_unsigned(v as int, 0x1_0000_0000), 4))
    }

    open spec fn parse(bytes: Seq<u8>, at: int) -> Result<(i32, int), DecodeError> {
        match be_parse(bytes, at, 4) {
            Ok((raw, next)) => Ok((to_signed(raw, 0x1_0000_0000) as i32, next)),
            Err(e) => Err(e),
        }
    }

    open spec fn exact(v: i32) -> bool {
        true
    }

    proof fn lemma_round_trip(v: i32, before: Seq<u8>, after: Seq<u8>) {
        let raw = to_unsigned(v as int, 0x1_0000_0000);
        lemma_radix_pow_values();
        lemma_be_bytes_len(raw, 4);
        lemma_be_round_trip(raw, 4, before, after);
    }

    fn decode_at(bytes: &[u8], at: usize) -> (r: Result<(i32, usize), DecodeError>) {
        proof {
            lemma_radix_pow_values();
        }
        let (raw, next) = read_be(bytes, at, 4)?;
        proof {
            lemma_i32_bits(0, raw as u32);
        }
        Ok((raw as u32 as i32, next))
    }

    fn encode(&self, writer: &mut BytesMut) -> (r: Result<(), EncodeError>) {
        proof {
            lemma_i32_bits(*self, 0);
        }
        write_be(*self as u32 as u64, 4, writer);
        Ok(())
    }
}

/// An unsigned integer in eight bytes.
impl Encodable for u64 {
    open spec fn wire(v: u64) -> Result<Seq<u8>, EncodeError> {
        Ok(be_bytes(v as nat, 8))
    }

    open spec fn parse(bytes: Seq<u8>, at: int) -> Result<(u64, int), DecodeError> {
        match be_parse(bytes, at, 8) {
            Ok((raw, next)) => Ok((raw as u64, next)),
            Err(e) => Err(e),
        }
    }

    open spec fn exact(v: u64) -> bool {
        true
    }

    proof fn lemma_round_trip(v: u64, before: Seq<u8>, after: Seq<u8>) {
        lemma_radix_pow_values();
        lemma_be_bytes_len(v as nat, 8);
        lemma_be_round_trip(v as nat, 8, before, after);
    }

    fn decode_at(bytes: &[u8], at: usize) -> (r: Result<(u64, usize), DecodeError>) {
        proof {
            lemma_radix_pow_values();
        }
        let (raw, next) = read_be(bytes, at, 8)?;
        Ok((raw, next))
    }

    fn encode(&self, writer: &mut BytesMut) -> (r: Result<(), EncodeError>) {
        write_be(*self, 8, writer);
        Ok(())
    }
}

/// A cast between `i64` and `u64` keeps the bits: it is two's complement.
pub proof fn lemma_i64_bits(v: i64, raw: u64)
    by (bit_vector)
    ensures
        v >= 0 ==> v as u64 == v,
        v < 0 ==> v as u64 == v + 0x1_0000_0000_0000_0000,
        raw < 0x8000_0000_0000_0000 ==> raw as i64 == raw,
        raw >= 0x8000_0000_0000_0000 ==> raw as i64 == raw - 0x1_0000_0000_0000_0000,
{
}

/// A signed integer in eight bytes, in two's complement.
impl Encodable for i64 {
    open spec fn wire(v: i64) -> Result<Seq<u8>, EncodeError> {
        Ok(be_bytes(to_unsigned(v as int, 0x1_0000_0000_0000_0000), 8))
    }

    open spec fn parse(bytes: Seq<u8>, at: int) -> Result<(i64, int), DecodeError> {
        match be_parse(bytes, at, 8) {
            Ok((raw, next)) => Ok((to_signed(raw, 0x1_0000_0000_0000_0000) as i64, next)),
            Err(e) => Err(e),
        }
    }

    open spec fn exact(v: i64) -> bool {
        true
    }

    proof fn lemma_round_trip(v: i64, before: Seq<u8>, after: Seq<u8>) {
        let raw = to_unsigned(v as int, 0x1_0000_0000_0000_0000);
        lemma_radix_pow_values();
        lemma_be_bytes_len(raw, 8);
        lemma_be_round_trip(raw, 8, before, after);
    }

    fn decode_at(bytes: &[u8], at: usize) -> (r: Result<(i64, usize), DecodeError>) {
        proof {
            lemma_radix_pow_values();
        }
        let (raw, next) = read_be(bytes, at, 8)?;
        proof {
            lemma_i64_bits(0, raw);
        }
        Ok((raw as i64, next))
    }

    fn encode(&self, writer: &mut BytesMut) -> (r: Result<(), EncodeError>) {
        proof {
            lemma_i64_bits(*self, 0);
        }
        write_be(*self as u64 as u64, 8, writer);
        Ok(())
    }
}

/// A 32-bit IEEE 754 number, held as its bits. On the wire it is those bits
/// as an unsigned integer.
#[derive(Debug, Clone, Copy, PartialEq, Eq, Hash, Structural)]
pub struct Float(pub u32);

/// A 64-bit IEEE 754 number, held as its bits. On the wire it is those bits
/// as an unsigned integer.
#[derive(Debug, Clone, Copy, PartialEq, Eq, Hash, Structural)]
pub struct Double(pub u64);

impl View for Float {
    type V = Float;

    open spec fn view(&self) -> Float {
        *self
    }
}

impl View for Double {
    type V = Double;

    open spec fn view(&self) -> Double {
        *self
    }
}

impl Encodable for Float {
    open spec fn wire(v: Float) -> Result<Seq<u8>, EncodeError> {
        u32::wire(v.0)
    }

    open spec fn parse(bytes: Seq<u8>, at: int) -> Result<(Float, int), DecodeError> {
        match u32::parse(bytes, at) {
            Ok((bits, next)) => Ok((Float(bits), next)),
            Err(e) => Err(e),
        }
    }

    open spec fn exact(v: Float) -> bool {
        true
    }

    proof fn lemma_round_trip(v: Float, before: Seq<u8>, after: Seq<u8>) {
        u32::lemma_round_trip(v.0, before, after);
    }

    fn decode_at(bytes: &[u8], at: usize) -> (r: Result<(Float, usize), DecodeError>) {
        let (bits, next) = u32::decode_at(bytes, at)?;
        Ok((Float(bits), next))
    }

    fn encode(&self, writer: &mut BytesMut) -> (r: Result<(), EncodeError>) {
        self.0.encode(writer)
    }
}

impl Encodable for Double {
    open spec fn wire(v: Double) -> Result<Seq<u8>, EncodeError> {
        u64::wire(v.0)
    }

    open spec fn parse(bytes: Seq<u8>, at: int) -> Result<(Double, int), DecodeError> {
        match u64::parse(bytes, at) {
            Ok((bits, next)) => Ok((Double(bits), next)),
            Err(e) => Err(e),
        }
    }

    open spec fn exact(v: Double) -> bool {
        true
    }

    proof fn lemma_round_trip(v: Double, before: Seq<u8>, after: Seq<u8>) {
        u64::lemma_round_trip(v.0, before, after);
    }

    fn decode_at(bytes: &[u8], at: usize) -> (r: Result<(Double, usize), DecodeError>) {
        let (bits, next) = u64::decode_at(bytes, at)?;
        Ok((Double(bits), next))
    }

    fn encode(&self, writer: &mut BytesMut) -> (r: Result<(), EncodeError>) {
        self.0.encode(writer)
    }
}

/// A truth value in one byte: zero is false, anything else is true, and
/// true is written as one.
impl Encodable for bool {
    open spec fn wire(v: bool) -> Result<Seq<u8>, EncodeError> {
        Ok(
            seq![if v {
                1u8
            } else {
                0u8
            }],
        )
    }

    open spec fn parse(bytes: Seq<u8>, at: int) -> Result<(bool, int), DecodeError> {
        if 0 <= at < bytes.len() {
            Ok((bytes[at] != 0, at + 1))
        } else {
            Err(DecodeError::UnexpectedEof)
        }
    }

    open spec fn exact(v: bool) -> bool {
        true
    }

    proof fn lemma_round_trip(v: bool, before: Seq<u8>, after: Seq<u8>) {
    }

    fn decode_at(bytes: &[u8], at: usize) -> (r: Result<(bool, usize), DecodeError>) {
        if at < bytes.len() {
            Ok((bytes[at] != 0, at + 1))
        } else {
            Err(DecodeError::UnexpectedEof)
        }
    }

    fn encode(&self, writer: &mut BytesMut) -> (r: Result<(), EncodeError>) {
        let byte: u8 = if *self {
            1
        } else {
            0
        };
        writer.extend_from_slice(&[byte]);
        Ok(())
    }
}

} // verus!
