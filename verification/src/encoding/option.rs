//! Fields that are not always there. Nothing on the wire says whether such a
//! field is present: a field read before it does.

use crate::buffer::bytes_of;
use crate::encoding::Encodable;
use crate::error::DecodeError;
use crate::error::EncodeError;
use bytes::BytesMut;
use vstd::prelude::*;

verus! {

/// The bytes of a field that may be absent: its own when it is there, none
/// when it is not.
pub open spec fn wire_optional<T: Encodable>(v: Option<T::V>) -> Result<Seq<u8>, EncodeError> {
    match v {
        Some(value) => T::wire(value),
        None => Ok(Seq::empty()),
    }
}

/// The field at `at` in `bytes` when `present` says that it is there, and
/// nothing, with no byte taken, when it is not.
pub open spec fn parse_optional<T: Encodable>(present: bool, bytes: Seq<u8>, at: int) -> Result<
    (Option<T::V>, int),
    DecodeError,
> {
    if present {
        match T::parse(bytes, at) {
            Ok((value, next)) => Ok((Some(value), next)),
            Err(e) => Err(e),
        }
    } else {
        Ok((None, at))
    }
}

/// The view of a field that may be absent.
pub open spec fn optional_view<T: Encodable>(field: Option<T>) -> Option<T::V> {
    match field {
        Some(value) => Some(value@),
        None => None,
    }
}

/// A field that may be absent is read back as it was written, when the
/// reader is told rightly whether it is there.
pub proof fn lemma_optional_round_trip<T: Encodable>(
    v: Option<T::V>,
    before: Seq<u8>,
    after: Seq<u8>,
)
    requires
        v matches Some(value) ==> T::exact(value),
        wire_optional::<T>(v) is Ok,
    ensures
        parse_optional::<T>(
            v is Some,
            before + wire_optional::<T>(v).unwrap() + after,
            before.len() as int,
        ) == Ok::<_, DecodeError>(
            (v, (before.len() + wire_optional::<T>(v).unwrap().len()) as int),
        ),
{
    match v {
        Some(value) => {
            T::lemma_round_trip(value, before, after);
        },
        None => {},
    }
}

/// Reads the field that starts at `at` in `bytes` if `present` says that
/// there is one.
pub fn decode_optional<T: Encodable>(present: bool, bytes: &[u8], at: usize) -> (r: Result<
    (Option<T>, usize),
    DecodeError,
>)
    requires
        at <= bytes@.len(),
    ensures
        match parse_optional::<T>(present, bytes@, at as int) {
            Ok((v, next)) => r matches Ok((field, n)) && optional_view(field) == v && n == next
                && at <= n <= bytes@.len(),
            Err(e) => r == Err::<(Option<T>, usize), _>(e),
        },
{
    if present {
        let (value, next) = T::decode_at(bytes, at)?;
        Ok((Some(value), next))
    } else {
        Ok((None, at))
    }
}

/// Adds the bytes of `field` at the end of `writer` if there is a field. On
/// failure `writer` is left as it was.
pub fn encode_optional<T: Encodable>(field: &Option<T>, writer: &mut BytesMut) -> (r: Result<
    (),
    EncodeError,
>)
    ensures
        match wire_optional::<T>(optional_view(*field)) {
            Ok(w) => r is Ok && bytes_of(*final(writer)) == bytes_of(*old(writer)) + w,
            Err(e) => r == Err::<(), _>(e) && bytes_of(*final(writer)) == bytes_of(*old(writer)),
        },
{
    match field {
        Some(value) => value.encode(writer),
        None => Ok(()),
    }
}

} // verus!
