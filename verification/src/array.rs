//! Sequences of values as packets carry them.

use vstd::prelude::*;

verus! {

/// A sequence that travels behind a statement of its length: `len` is read
/// first and tells how many elements follow.
pub struct CountedArray<A, B> {
    pub len: A,
    pub arr: Vec<B>,
}

/// A sequence without a stated length: it goes on to the end of its packet.
pub struct DynamicArray<A> {
    pub arr: Vec<A>,
}

impl<A: View, B: View> View for CountedArray<A, B> {
    type V = (A::V, Seq<B::V>);

    open spec fn view(&self) -> (A::V, Seq<B::V>) {
        (self.len@, Seq::new(self.arr@.len(), |i: int| self.arr@[i]@))
    }
}

impl<A: View> View for DynamicArray<A> {
    type V = Seq<A::V>;

    open spec fn view(&self) -> Seq<A::V> {
        Seq::new(self.arr@.len(), |i: int| self.arr@[i]@)
    }
}

} // verus!
