//! What this library relies on from `bytes::BytesMut`, the growable buffer
//! that codecs read from and write to.
//!
//! Nothing in this file is proved. Each item states, over the buffer's
//! contents as a sequence of bytes, what the `bytes` crate documents.

use bytes::Buf;
use bytes::BytesMut;
use vstd::prelude::*;

verus! {

/// `bytes::BytesMut`, taken as a type whose inside is not looked into.
#[verifier::external_type_specification]
#[verifier::external_body]
pub struct ExBytesMut(bytes::BytesMut);

/// The bytes that `buf` holds, first to last.
pub uninterp spec fn bytes_of(buf: BytesMut) -> Seq<u8>;

/// `BytesMut::new` gives a buffer that holds nothing.
pub assume_specification[ BytesMut::new ]() -> (buf: BytesMut)
    ensures
        bytes_of(buf) == Seq::<u8>::empty(),
;

/// `BytesMut::len` is the number of bytes held.
pub assume_specification[ BytesMut::len ](buf: &BytesMut) -> (n: usize)
    ensures
        n == bytes_of(*buf).len(),
;

/// `BytesMut::extend_from_slice` adds the given bytes at the end and keeps
/// what was there. It grows the buffer as needed, and panics only if the new
/// length does not fit a `usize`; as vstd does for `Vec`, this leaves memory
/// that runs out unmodelled.
pub assume_specification[ BytesMut::extend_from_slice ](buf: &mut BytesMut, extend: &[u8])
    ensures
        bytes_of(*final(buf)) == bytes_of(*old(buf)) + extend@,
;

/// `BytesMut::truncate` keeps the first `len` bytes, and everything when
/// there are no more than `len`.
pub assume_specification[ BytesMut::truncate ](buf: &mut BytesMut, len: usize)
    ensures
        bytes_of(*final(buf)) == if len <= bytes_of(*old(buf)).len() {
            bytes_of(*old(buf)).take(len as int)
        } else {
            bytes_of(*old(buf))
        },
;

/// `Buf::advance` on a `BytesMut` drops the first `cnt` bytes. It panics
/// when fewer are held, so callers must know that `cnt` are there.
pub assume_specification[ <BytesMut as Buf>::advance ](buf: &mut BytesMut, cnt: usize)
    requires
        cnt <= bytes_of(*old(buf)).len(),
    ensures
        bytes_of(*final(buf)) == bytes_of(*old(buf)).skip(cnt as int),
;

/// Dereferencing a `BytesMut` gives its contents as a slice.
pub assume_specification<'a>[ <BytesMut as core::ops::Deref>::deref ](buf: &'a BytesMut) -> (bytes:
    &'a [u8])
    ensures
        bytes@ == bytes_of(*buf),
;

} // verus!
