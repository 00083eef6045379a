//! Operations of the array that take a range of indices or hand out indices
//! with the elements.

use vstd::prelude::*;
use crate::idx::Idx;
use crate::idxslice::spliced;
use crate::index_vec::IndexVec;
use crate::range_bounds::IdxRangeBounds;

verus! {

impl<I: Idx, T> IndexVec<I, T> {
    /// The index of every position, in order.
    pub fn indices(&self) -> (r: Vec<I>)
        requires
            forall|k: usize| k < self@.len() ==> I::admits(k),
        ensures
            r@.len() == self@.len(),
            forall|k: int| 0 <= k < r@.len() ==> r@[k] == I::from_usize_spec(k as usize),
    {
        self.as_slice().indices()
    }

    /// Every element with its index, in order.
    pub fn iter_enumerated(&self) -> (r: Vec<(I, &T)>)
        requires
            forall|k: usize| k < self@.len() ==> I::admits(k),
        ensures
            r@.len() == self@.len(),
            forall|k: int|
                0 <= k < r@.len() ==> r@[k] == (I::from_usize_spec(k as usize), &self@[k]),
    {
        self.as_slice().iter_enumerated()
    }

    /// Every element with its index, in order, each to write through.
    pub fn iter_mut_enumerated(&mut self) -> (r: Vec<(I, &mut T)>)
        requires
            forall|k: usize| k < old(self)@.len() ==> I::admits(k),
        ensures
            r@.len() == old(self)@.len(),
            final(self)@.len() == old(self)@.len(),
            forall|k: int|
                0 <= k < r@.len() ==> {
                    &&& (#[trigger] r@[k]).0 == I::from_usize_spec(k as usize)
                    &&& *r@[k].1 == old(self)@[k]
                    &&& final(self)@[k] == *final(r@[k].1)
                },
    {
        self.as_mut_slice().iter_mut_enumerated()
    }

    /// Takes the array apart: every element with its index, in order.
    pub fn into_iter_enumerated(self) -> (r: Vec<(I, T)>)
        requires
            forall|k: usize| k < self@.len() ==> I::admits(k),
        ensures
            r@ == enumerated::<I, T>(self@, 0),
    {
        proof {
            vstd::std_specs::vec::axiom_spec_len(&self.vec);
        }
        enumerate_from(self.vec, 0)
    }

    /// Removes the elements that `range` covers and returns them in order.
    /// The elements behind the range move up to close the gap.
    pub fn drain<R: IdxRangeBounds<I>>(&mut self, range: R) -> (r: Vec<T>)
        requires
            range.range_spec().fits(old(self)@.len()),
        ensures
            r@ == range.range_spec().slice_of(old(self)@),
            final(self)@ == range.range_spec().rest_of(old(self)@),
    {
        let (lo, hi) = range.into_range().resolve(self.vec.len()).unwrap();
        let mut tail = self.vec.split_off(hi);
        let removed = self.vec.split_off(lo);
        self.vec.append(&mut tail);
        removed
    }

    /// Removes the elements that `range` covers and returns each with the
    /// index of the position that it had in the array.
    pub fn drain_enumerated<R: IdxRangeBounds<I>>(&mut self, range: R) -> (r: Vec<(I, T)>)
        requires
            range.range_spec().fits(old(self)@.len()),
            forall|k: usize|
                range.range_spec().start <= k < range.range_spec().upper(old(self)@.len())
                    ==> I::admits(k),
        ensures
            r@ == enumerated::<I, T>(
                range.range_spec().slice_of(old(self)@),
                range.range_spec().start as int,
            ),
            final(self)@ == range.range_spec().rest_of(old(self)@),
    {
        let (lo, hi) = range.into_range().resolve(self.vec.len()).unwrap();
        let mut tail = self.vec.split_off(hi);
        let removed = self.vec.split_off(lo);
        self.vec.append(&mut tail);
        enumerate_from(removed, lo)
    }

    /// Replaces the elements that `range` covers by those of `replace_with`
    /// and returns the elements that were replaced.
    pub fn splice<R: IdxRangeBounds<I>>(&mut self, range: R, replace_with: Vec<T>) -> (r: Vec<T>)
        requires
            range.range_spec().fits(old(self)@.len()),
        ensures
            r@ == range.range_spec().slice_of(old(self)@),
            final(self)@ == spliced(
                old(self)@,
                range.range_spec().start as int,
                range.range_spec().upper(old(self)@.len()),
                replace_with@,
            ),
    {
        let (lo, hi) = range.into_range().resolve(self.vec.len()).unwrap();
        let mut tail = self.vec.split_off(hi);
        let removed = self.vec.split_off(lo);
        let mut middle = replace_with;
        self.vec.append(&mut middle);
        self.vec.append(&mut tail);
        removed
    }
}

/// The elements of `s`, each with the index of its position, where the
/// first element stands at position `first`.
pub open spec fn enumerated<I: Idx, T>(s: Seq<T>, first: int) -> Seq<(I, T)> {
    Seq::new(s.len(), |k: int| (I::from_usize_spec((first + k) as usize), s[k]))
}

/// Pairs each element of `elems` with the index of its position, counted
/// from `first`.
pub fn enumerate_from<I: Idx, T>(elems: Vec<T>, first: usize) -> (r: Vec<(I, T)>)
    requires
        first + elems@.len() <= usize::MAX,
        forall|k: usize| first <= k < first + elems@.len() ==> I::admits(k),
    ensures
        r@ == enumerated::<I, T>(elems@, first as int),
{
    let ghost all = elems@;
    let mut out: Vec<(I, T)> = Vec::new();
    for x in it: elems.into_iter()
        invariant
            it.seq() == all,
            first + all.len() <= usize::MAX,
            forall|k: usize| first <= k < first + all.len() ==> I::admits(k),
            out@.len() == it.index(),
            forall|k: int|
                0 <= k < out@.len() ==> out@[k] == (
                    I::from_usize_spec((first + k) as usize),
                    all[k],
                ),
    {
        let n = out.len();
        out.push((I::from_usize(first + n), x));
    }
    assert(out@ =~= enumerated::<I, T>(all, first as int));
    out
}

} // verus!
