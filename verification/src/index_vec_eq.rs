//! `==` between arrays, views and the plain sequences of std.
//!
//! Two sequences are equal when they are equally long and equal element by
//! element, whatever holds them and whatever index type addresses them.

use vstd::prelude::*;
use vstd::std_specs::cmp::{PartialEqSpec, PartialEqSpecImpl};
use crate::idx::Idx;
use crate::idxslice::IdxSlice;
use crate::index_vec::IndexVec;

verus! {

/// Whether two sequences are equally long and equal element by element.
pub open spec fn seq_eq<A: PartialEq<B>, B>(a: Seq<A>, b: Seq<B>) -> bool {
    &&& a.len() == b.len()
    &&& forall|i: int| 0 <= i < a.len() ==> #[trigger] a[i].eq_spec(&b[i])
}

/// Compares two slices element by element, up to the first difference.
pub fn slice_eq<A: PartialEq<B>, B>(a: &[A], b: &[B]) -> (r: bool)
    ensures
        A::obeys_eq_spec() ==> r == seq_eq(a@, b@),
{
    if a.len() != b.len() {
        return false;
    }
    let mut i: usize = 0;
    while i < a.len()
        invariant
            i <= a@.len(),
            a@.len() == b@.len(),
            A::obeys_eq_spec() ==> forall|k: int| 0 <= k < i ==> #[trigger] a@[k].eq_spec(&b@[k]),
        decreases a@.len() - i,
    {
        if !(a[i] == b[i]) {
            return false;
        }
        i += 1;
    }
    true
}

impl<I: Idx, A: PartialEq<B>, B> PartialEq<IndexVec<I, B>> for IndexVec<I, A> {
    fn eq(&self, other: &IndexVec<I, B>) -> (r: bool) {
        slice_eq(self.vec.as_slice(), other.vec.as_slice())
    }
}

impl<I: Idx, A: PartialEq<B>, B> PartialEqSpecImpl<IndexVec<I, B>> for IndexVec<I, A> {
    open spec fn obeys_eq_spec() -> bool {
        A::obeys_eq_spec()
    }

    open spec fn eq_spec(&self, other: &IndexVec<I, B>) -> bool {
        seq_eq(self@, other@)
    }
}

impl<I: Idx, A: PartialEq<B>, B> PartialEq<Vec<B>> for IndexVec<I, A> {
    fn eq(&self, other: &Vec<B>) -> (r: bool) {
        slice_eq(self.vec.as_slice(), other.as_slice())
    }
}

impl<I: Idx, A: PartialEq<B>, B> PartialEqSpecImpl<Vec<B>> for IndexVec<I, A> {
    open spec fn obeys_eq_spec() -> bool {
        A::obeys_eq_spec()
    }

    open spec fn eq_spec(&self, other: &Vec<B>) -> bool {
        seq_eq(self@, other@)
    }
}

impl<'b, I: Idx, A: PartialEq<B>, B> PartialEq<&'b [B]> for IndexVec<I, A> {
    fn eq(&self, other: &&'b [B]) -> (r: bool) {
        slice_eq(self.vec.as_slice(), *other)
    }
}

impl<'b, I: Idx, A: PartialEq<B>, B> PartialEqSpecImpl<&'b [B]> for IndexVec<I, A> {
    open spec fn obeys_eq_spec() -> bool {
        A::obeys_eq_spec()
    }

    open spec fn eq_spec(&self, other: &&'b [B]) -> bool {
        seq_eq(self@, other@)
    }
}

impl<I: Idx, A: PartialEq<B>, B, const N: usize> PartialEq<[B; N]> for IndexVec<I, A> {
    fn eq(&self, other: &[B; N]) -> (r: bool) {
        slice_eq(self.vec.as_slice(), other.as_slice())
    }
}

impl<I: Idx, A: PartialEq<B>, B, const N: usize> PartialEqSpecImpl<[B; N]> for IndexVec<I, A> {
    open spec fn obeys_eq_spec() -> bool {
        A::obeys_eq_spec()
    }

    open spec fn eq_spec(&self, other: &[B; N]) -> bool {
        seq_eq(self@, other@)
    }
}

impl<'b, I: Idx, A: PartialEq<B>, B, const N: usize> PartialEq<&'b [B; N]> for IndexVec<I, A> {
    fn eq(&self, other: &&'b [B; N]) -> (r: bool) {
        slice_eq(self.vec.as_slice(), other.as_slice())
    }
}

impl<'b, I: Idx, A: PartialEq<B>, B, const N: usize> PartialEqSpecImpl<&'b [B; N]> for IndexVec<I, A> {
    open spec fn obeys_eq_spec() -> bool {
        A::obeys_eq_spec()
    }

    open spec fn eq_spec(&self, other: &&'b [B; N]) -> bool {
        seq_eq(self@, other@)
    }
}

impl<'b, I: Idx, A: PartialEq<B>, B> PartialEq<IdxSlice<'b, I, B>> for IndexVec<I, A> {
    fn eq(&self, other: &IdxSlice<'b, I, B>) -> (r: bool) {
        slice_eq(self.vec.as_slice(), other.slice)
    }
}

impl<'b, I: Idx, A: PartialEq<B>, B> PartialEqSpecImpl<IdxSlice<'b, I, B>> for IndexVec<I, A> {
    open spec fn obeys_eq_spec() -> bool {
        A::obeys_eq_spec()
    }

    open spec fn eq_spec(&self, other: &IdxSlice<'b, I, B>) -> bool {
        seq_eq(self@, other@)
    }
}

impl<'a, 'b, I: Idx, A: PartialEq<B>, B> PartialEq<IdxSlice<'b, I, B>> for IdxSlice<'a, I, A> {
    fn eq(&self, other: &IdxSlice<'b, I, B>) -> (r: bool) {
        slice_eq(self.slice, other.slice)
    }
}

impl<'a, 'b, I: Idx, A: PartialEq<B>, B> PartialEqSpecImpl<IdxSlice<'b, I, B>> for IdxSlice<'a, I, A> {
    open spec fn obeys_eq_spec() -> bool {
        A::obeys_eq_spec()
    }

    open spec fn eq_spec(&self, other: &IdxSlice<'b, I, B>) -> bool {
        seq_eq(self@, other@)
    }
}

impl<'a, I: Idx, A: PartialEq<B>, B> PartialEq<Vec<B>> for IdxSlice<'a, I, A> {
    fn eq(&self, other: &Vec<B>) -> (r: bool) {
        slice_eq(self.slice, other.as_slice())
    }
}

impl<'a, I: Idx, A: PartialEq<B>, B> PartialEqSpecImpl<Vec<B>> for IdxSlice<'a, I, A> {
    open spec fn obeys_eq_spec() -> bool {
        A::obeys_eq_spec()
    }

    open spec fn eq_spec(&self, other: &Vec<B>) -> bool {
        seq_eq(self@, other@)
    }
}

impl<'a, I: Idx, A: PartialEq<B>, B> PartialEq<IndexVec<I, B>> for IdxSlice<'a, I, A> {
    fn eq(&self, other: &IndexVec<I, B>) -> (r: bool) {
        slice_eq(self.slice, other.vec.as_slice())
    }
}

impl<'a, I: Idx, A: PartialEq<B>, B> PartialEqSpecImpl<IndexVec<I, B>> for IdxSlice<'a, I, A> {
    open spec fn obeys_eq_spec() -> bool {
        A::obeys_eq_spec()
    }

    open spec fn eq_spec(&self, other: &IndexVec<I, B>) -> bool {
        seq_eq(self@, other@)
    }
}

impl<'a, 'b, I: Idx, A: PartialEq<B>, B> PartialEq<&'b [B]> for IdxSlice<'a, I, A> {
    fn eq(&self, other: &&'b [B]) -> (r: bool) {
        slice_eq(self.slice, *other)
    }
}

impl<'a, 'b, I: Idx, A: PartialEq<B>, B> PartialEqSpecImpl<&'b [B]> for IdxSlice<'a, I, A> {
    open spec fn obeys_eq_spec() -> bool {
        A::obeys_eq_spec()
    }

    open spec fn eq_spec(&self, other: &&'b [B]) -> bool {
        seq_eq(self@, other@)
    }
}

impl<'a, I: Idx, A: PartialEq<B>, B, const N: usize> PartialEq<[B; N]> for IdxSlice<'a, I, A> {
    fn eq(&self, other: &[B; N]) -> (r: bool) {
        slice_eq(self.slice, other.as_slice())
    }
}

impl<'a, I: Idx, A: PartialEq<B>, B, const N: usize> PartialEqSpecImpl<[B; N]> for IdxSlice<'a, I, A> {
    open spec fn obeys_eq_spec() -> bool {
        A::obeys_eq_spec()
    }

    open spec fn eq_spec(&self, other: &[B; N]) -> bool {
        seq_eq(self@, other@)
    }
}

impl<'a, 'b, I: Idx, A: PartialEq<B>, B, const N: usize> PartialEq<&'b [B; N]> for IdxSlice<'a, I, A> {
    fn eq(&self, other: &&'b [B; N]) -> (r: bool) {
        slice_eq(self.slice, other.as_slice())
    }
}

impl<'a, 'b, I: Idx, A: PartialEq<B>, B, const N: usize> PartialEqSpecImpl<&'b [B; N]> for IdxSlice<'a, I, A> {
    open spec fn obeys_eq_spec() -> bool {
        A::obeys_eq_spec()
    }

    open spec fn eq_spec(&self, other: &&'b [B; N]) -> bool {
        seq_eq(self@, other@)
    }
}

} // verus!
