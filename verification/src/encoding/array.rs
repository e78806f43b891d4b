//! The counted array: a count, then that many elements one after another.

use crate::array::CountedArray;
use crate::buffer::bytes_of;
use crate::encoding::Encodable;
use crate::error::DecodeError;
use crate::error::EncodeError;
use crate::varint::VarInt;
use bytes::BytesMut;
use vstd::prelude::*;

verus! {

/// A value that can state how many elements follow it.
pub trait Count: Encodable {
    /// The number that `v` states, unless it is below zero.
    spec fn count(v: Self::V) -> Option<nat>;

    /// The number that `self` states, unless it is below zero.
    fn to_usize(&self) -> (n: Option<usize>)
        ensures
            match n {
                Some(c) => Self::count(self@) == Some(c as nat),
                None => Self::count(self@) is None,
            },
    ;
}

impl Count for VarInt {
    open spec fn count(v: VarInt) -> Option<nat> {
        if v.0 >= 0 {
            Some(v.0 as nat)
        } else {
            None
        }
    }

    fn to_usize(&self) -> (n: Option<usize>) {
        if self.0 >= 0 {
            Some(self.0 as usize)
        } else {
            None
        }
    }
}

impl Count for i32 {
    open spec fn count(v: i32) -> Option<nat> {
        if v >= 0 {
            Some(v as nat)
        } else {
            None
        }
    }

    fn to_usize(&self) -> (n: Option<usize>) {
        if *self >= 0 {
            Some(*self as usize)
        } else {
            None
        }
    }
}

impl Count for i16 {
    open spec fn count(v: i16) -> Option<nat> {
        if v >= 0 {
            Some(v as nat)
        } else {
            None
        }
    }

    fn to_usize(&self) -> (n: Option<usize>) {
        if *self >= 0 {
            Some(*self as usize)
        } else {
            None
        }
    }
}

impl Count for u8 {
    open spec fn count(v: u8) -> Option<nat> {
        Some(v as nat)
    }

    fn to_usize(&self) -> (n: Option<usize>) {
        Some(*self as usize)
    }
}

/// The first `count` values that follow one another from `at` in `bytes`,
/// and the offset behind the last of them.
pub open spec fn parse_elements<U: Encodable>(bytes: Seq<u8>, at: int, count: nat) -> Result<
    (Seq<U::V>, int),
    DecodeError,
>
    decreases count,
{
    if count == 0 {
        Ok((Seq::empty(), at))
    } else {
        match parse_elements::<U>(bytes, at, (count - 1) as nat) {
            Err(e) => Err(e),
            Ok((earlier, mid)) => match U::parse(bytes, mid) {
                Err(e) => Err(e),
                Ok((last, end)) => Ok((earlier.push(last), end)),
            },
        }
    }
}

/// The bytes of `elements`, one value after another.
pub open spec fn wire_elements<U: Encodable>(elements: Seq<U::V>) -> Result<Seq<u8>, EncodeError>
    decreases elements.len(),
{
    if elements.len() == 0 {
        Ok(Seq::empty())
    } else {
        match wire_elements::<U>(elements.drop_last()) {
            Err(e) => Err(e),
            Ok(earlier) => match U::wire(elements.last()) {
                Err(e) => Err(e),
                Ok(last) => Ok(earlier + last),
            },
        }
    }
}

/// When some element cannot be read, no longer run of elements can.
pub proof fn lemma_parse_elements_fails<U: Encodable>(
    bytes: Seq<u8>,
    at: int,
    count: nat,
    more: nat,
)
    requires
        count <= more,
        parse_elements::<U>(bytes, at, count) is Err,
    ensures
        parse_elements::<U>(bytes, at, more) == parse_elements::<U>(bytes, at, count),
    decreases more,
{
    if count < more {
        lemma_parse_elements_fails::<U>(bytes, at, count, (more - 1) as nat);
    }
}

/// When some element has no wire form, no longer run of elements has one.
pub proof fn lemma_wire_elements_fails<U: Encodable>(elements: Seq<U::V>, count: int)
    requires
        0 <= count <= elements.len(),
        wire_elements::<U>(elements.take(count)) is Err,
    ensures
        wire_elements::<U>(elements) == wire_elements::<U>(elements.take(count)),
    decreases elements.len(),
{
    if count < elements.len() {
        assert(elements.drop_last().take(count) =~= elements.take(count));
        lemma_wire_elements_fails::<U>(elements.drop_last(), count);
    } else {
        assert(elements.take(count) =~= elements);
    }
}

/// Elements written one after another between other bytes are read back,
/// and reading stops behind the last of them.
pub proof fn lemma_elements_round_trip<U: Encodable>(
    elements: Seq<U::V>,
    before: Seq<u8>,
    after: Seq<u8>,
)
    requires
        forall|i: int| 0 <= i < elements.len() ==> U::exact(#[trigger] elements[i]),
        wire_elements::<U>(elements) is Ok,
    ensures
        parse_elements::<U>(
            before + wire_elements::<U>(elements).unwrap() + after,
            before.len() as int,
            elements.len(),
        ) == Ok::<_, DecodeError>(
            (elements, (before.len() + wire_elements::<U>(elements).unwrap().len()) as int),
        ),
    decreases elements.len(),
{
    let bytes = before + wire_elements::<U>(elements).unwrap() + after;
    if elements.len() == 0 {
        assert(elements =~= Seq::empty());
    } else {
        let earlier = wire_elements::<U>(elements.drop_last()).unwrap();
        let last = U::wire(elements.last()).unwrap();
        lemma_elements_round_trip::<U>(elements.drop_last(), before, last + after);
        assert(bytes =~= before + earlier + (last + after));
        U::lemma_round_trip(elements.last(), before + earlier, after);
        assert(bytes =~= (before + earlier) + last + after);
        assert(elements.drop_last().push(elements.last()) =~= elements);
    }
}

impl<K: Count, U: Encodable> Encodable for CountedArray<K, U> {
    open spec fn wire(v: (K::V, Seq<U::V>)) -> Result<Seq<u8>, EncodeError> {
        if K::count(v.0) != Some(v.1.len()) {
            Err(EncodeError::LengthMismatch)
        } else {
            match K::wire(v.0) {
                Err(e) => Err(e),
                Ok(head) => match wire_elements::<U>(v.1) {
                    Err(e) => Err(e),
                    Ok(body) => Ok(head + body),
                },
            }
        }
    }

    open spec fn parse(bytes: Seq<u8>, at: int) -> Result<((K::V, Seq<U::V>), int), DecodeError> {
        match K::parse(bytes, at) {
            Err(e) => Err(e),
            Ok((len, start)) => match K::count(len) {
                None => Err(DecodeError::NegativeLength),
                Some(count) => match parse_elements::<U>(bytes, start, count) {
                    Err(e) => Err(e),
                    Ok((elements, end)) => Ok(((len, elements), end)),
                },
            },
        }
    }

    open spec fn exact(v: (K::V, Seq<U::V>)) -> bool {
        &&& K::exact(v.0)
        &&& forall|i: int| 0 <= i < v.1.len() ==> U::exact(#[trigger] v.1[i])
    }

    proof fn lemma_round_trip(v: (K::V, Seq<U::V>), before: Seq<u8>, after: Seq<u8>) {
        let head = K::wire(v.0).unwrap();
        let body = wire_elements::<U>(v.1).unwrap();
        let bytes = before + (head + body) + after;
        K::lemma_round_trip(v.0, before, body + after);
        assert(bytes =~= before + head + (body + after));
        lemma_elements_round_trip::<U>(v.1, before + head, after);
        assert(bytes =~= (before + head) + body + after);
    }

    fn decode_at(bytes: &[u8], at: usize) -> (r: Result<(Self, usize), DecodeError>) {
        let (len, start) = K::decode_at(bytes, at)?;
        let count = match len.to_usize() {
            Some(count) => count,
            None => {
                return Err(DecodeError::NegativeLength);
            },
        };
        let mut arr: Vec<U> = Vec::new();
        let mut pos = start;
        let mut done: usize = 0;
        assert(Seq::new(arr@.len(), |i: int| arr@[i]@) =~= Seq::<U::V>::empty());
        while done < count
            invariant
                done <= count,
                K::parse(bytes@, at as int) == Ok::<_, DecodeError>((len@, start as int)),
                K::count(len@) == Some(count as nat),
                at <= pos <= bytes@.len(),
                arr@.len() == done,
                parse_elements::<U>(bytes@, start as int, done as nat) == Ok::<_, DecodeError>(
                    (Seq::new(arr@.len(), |i: int| arr@[i]@), pos as int),
                ),
            decreases count - done,
        {
            let ghost earlier = Seq::new(arr@.len(), |i: int| arr@[i]@);
            match U::decode_at(bytes, pos) {
                Ok((element, next)) => {
                    arr.push(element);
                    pos = next;
                    done += 1;
                    assert(Seq::new(arr@.len(), |i: int| arr@[i]@) =~= earlier.push(element@));
                },
                Err(e) => {
                    proof {
                        assert(parse_elements::<U>(bytes@, start as int, (done + 1) as nat) == Err::<
                            (Seq<U::V>, int),
                            _,
                        >(e));
                        lemma_parse_elements_fails::<U>(
                            bytes@,
                            start as int,
                            (done + 1) as nat,
                            count as nat,
                        );
                    }
                    return Err(e);
                },
            }
        }
        Ok((CountedArray { len, arr }, pos))
    }

    fn encode(&self, writer: &mut BytesMut) -> (r: Result<(), EncodeError>) {
        let stated = self.len.to_usize();
        if stated != Some(self.arr.len()) {
            return Err(EncodeError::LengthMismatch);
        }
        let start = writer.len();
        self.len.encode(writer)?;
        let ghost head = K::wire(self.len@).unwrap();
        let ghost elements = self@.1;
        let mut done: usize = 0;
        assert(elements.take(0) =~= Seq::empty());
        while done < self.arr.len()
            invariant
                done <= self.arr@.len(),
                elements == self@.1,
                K::count(self.len@) == Some(self.arr@.len()),
                K::wire(self.len@) == Ok::<_, EncodeError>(head),
                start == bytes_of(*old(writer)).len(),
                wire_elements::<U>(elements.take(done as int)) is Ok,
                bytes_of(*writer) == bytes_of(*old(writer)) + head + wire_elements::<U>(
                    elements.take(done as int),
                ).unwrap(),
            decreases self.arr@.len() - done,
        {
            assert(elements.take(done + 1).drop_last() =~= elements.take(done as int));
            assert(elements.take(done + 1).last() == self.arr@[done as int]@);
            match self.arr[done].encode(writer) {
                Ok(()) => {},
                Err(e) => {
                    proof {
                        lemma_wire_elements_fails::<U>(elements, done + 1);
                    }
                    writer.truncate(start);
                    assert(bytes_of(*writer) =~= bytes_of(*old(writer)));
                    return Err(e);
                },
            }
            done += 1;
        }
        assert(elements.take(done as int) =~= elements);
        Ok(())
    }
}

} // verus!
