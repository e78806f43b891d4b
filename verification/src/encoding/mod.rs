//! The contract that every value of the protocol meets: it can be read from
//! bytes and written as bytes, and the two agree.

use crate::buffer::bytes_of;
use crate::error::DecodeError;
use crate::error::EncodeError;
use bytes::Buf;
use bytes::BytesMut;
use vstd::prelude::*;

pub mod array;
pub mod numbers;
pub mod option;
pub mod string;

verus! {

/// A value with a wire form.
///
/// The wire form is stated over the value's view: `wire` gives the bytes of
/// a value, `parse` reads a value that starts at an offset in a sequence of
/// bytes and says where the next value starts.
pub trait Encodable: Sized + View {
    /// The bytes that stand for `v`, or the reason why it has none.
    spec fn wire(v: Self::V) -> Result<Seq<u8>, EncodeError>;

    /// The value that starts at `at` in `bytes` and the offset just behind
    /// it, or the reason why there is none.
    spec fn parse(bytes: Seq<u8>, at: int) -> Result<(Self::V, int), DecodeError>;

    /// Whether the wire form holds `v` without loss.
    spec fn exact(v: Self::V) -> bool;

    /// Reading back what was written gives the value that was written and
    /// stops right behind it, whatever stands before and after.
    proof fn lemma_round_trip(v: Self::V, before: Seq<u8>, after: Seq<u8>)
        requires
            Self::exact(v),
            Self::wire(v) is Ok,
        ensures
            Self::parse(before + Self::wire(v).unwrap() + after, before.len() as int) == Ok::<
                _,
                DecodeError,
            >((v, (before.len() + Self::wire(v).unwrap().len()) as int)),
    ;

    /// Reads the value that starts at `at` in `bytes`.
    fn decode_at(bytes: &[u8], at: usize) -> (r: Result<(Self, usize), DecodeError>)
        requires
            at <= bytes@.len(),
        ensures
            match Self::parse(bytes@, at as int) {
                Ok((v, next)) => r matches Ok((value, n)) && value@ == v && n == next && at <= n
                    <= bytes@.len(),
                Err(e) => r == Err::<(Self, usize), _>(e),
            },
    ;

    /// Takes a value from the front of `reader`. On failure `reader` keeps
    /// all its bytes.
    fn decode(reader: &mut BytesMut) -> (r: Result<Self, DecodeError>)
        ensures
            match Self::parse(bytes_of(*old(reader)), 0) {
                Ok((v, next)) => r matches Ok(value) && value@ == v && bytes_of(*final(reader))
                    == bytes_of(*old(reader)).skip(next),
                Err(e) => r == Err::<Self, _>(e) && bytes_of(*final(reader)) == bytes_of(
                    *old(reader),
                ),
            },
    {
        match Self::decode_at(&reader, 0) {
            Ok((value, n)) => {
                reader.advance(n);
                Ok(value)
            },
            Err(e) => Err(e),
        }
    }

    /// Adds the bytes of `self` at the end of `writer`. On failure `writer`
    /// is left as it was.
    fn encode(&self, writer: &mut BytesMut) -> (r: Result<(), EncodeError>)
        ensures
            match Self::wire(self@) {
                Ok(w) => r is Ok && bytes_of(*final(writer)) == bytes_of(*old(writer)) + w,
                Err(e) => r == Err::<(), _>(e) && bytes_of(*final(writer)) == bytes_of(
                    *old(writer),
                ),
            },
    ;
}

/// The bytes of two values of which the second follows the first, or the
/// reason why the first of them that has no bytes has none.
pub open spec fn join(first: Result<Seq<u8>, EncodeError>, second: Result<Seq<u8>, EncodeError>)
    -> Result<Seq<u8>, EncodeError> {
    match first {
        Err(e) => Err(e),
        Ok(a) => match second {
            Err(e) => Err(e),
            Ok(b) => Ok(a + b),
        },
    }
}

/// Adds one field to a record whose first byte is byte `start` of `writer`.
/// When the field has no wire form, the fields written before it are taken
/// out of `writer` again.
pub fn encode_field<T: Encodable>(field: &T, writer: &mut BytesMut, start: usize) -> (r: Result<
    (),
    EncodeError,
>)
    requires
        start <= bytes_of(*old(writer)).len(),
    ensures
        match T::wire(field@) {
            Ok(w) => r is Ok && bytes_of(*final(writer)) == bytes_of(*old(writer)) + w,
            Err(e) => r == Err::<(), _>(e) && bytes_of(*final(writer)) == bytes_of(
                *old(writer),
            ).take(start as int),
        },
{
    match field.encode(writer) {
        Ok(()) => Ok(()),
        Err(e) => {
            writer.truncate(start);
            Err(e)
        },
    }
}

/// Two values, the second right behind the first.
impl<A: Encodable, B: Encodable> Encodable for (A, B) {
    open spec fn wire(v: (A::V, B::V)) -> Result<Seq<u8>, EncodeError> {
        join(A::wire(v.0), B::wire(v.1))
    }

    open spec fn parse(bytes: Seq<u8>, at: int) -> Result<((A::V, B::V), int), DecodeError> {
        match A::parse(bytes, at) {
            Err(e) => Err(e),
            Ok((first, at)) => match B::parse(bytes, at) {
                Err(e) => Err(e),
                Ok((second, at)) => Ok(((first, second), at)),
            },
        }
    }

    open spec fn exact(v: (A::V, B::V)) -> bool {
        A::exact(v.0) && B::exact(v.1)
    }

    proof fn lemma_round_trip(v: (A::V, B::V), before: Seq<u8>, after: Seq<u8>) {
        let first = A::wire(v.0).unwrap();
        let second = B::wire(v.1).unwrap();
        let bytes = before + (first + second) + after;
        A::lemma_round_trip(v.0, before, second + after);
        assert(bytes =~= before + first + (second + after));
        B::lemma_round_trip(v.1, before + first, after);
        assert(bytes =~= (before + first) + second + after);
    }

    fn decode_at(bytes: &[u8], at: usize) -> (r: Result<(Self, usize), DecodeError>) {
        let (first, at) = A::decode_at(bytes, at)?;
        let (second, at) = B::decode_at(bytes, at)?;
        Ok(((first, second), at))
    }

    fn encode(&self, writer: &mut BytesMut) -> (r: Result<(), EncodeError>) {
        let start = writer.len();
        encode_field(&self.0, writer, start)?;
        encode_field(&self.1, writer, start)?;
        Ok(())
    }
}

} // verus!
