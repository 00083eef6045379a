//! Borrowed views of a run of elements, addressed by one index type.

use vstd::prelude::*;
use core::marker::PhantomData;
use crate::idx::Idx;
use crate::indexing::IdxSliceIndex;
use crate::usize_range::UsizeRange;

verus! {

/// A shared view of a run of elements. It owns nothing; its positions are
/// those of the run, starting at zero, whatever array the run was cut from.
#[derive(Debug)]
pub struct IdxSlice<'a, I: Idx, T> {
    pub slice: &'a [T],
    pub _marker: PhantomData<I>,
}

impl<'a, I: Idx, T> View for IdxSlice<'a, I, T> {
    type V = Seq<T>;

    open spec fn view(&self) -> Seq<T> {
        self.slice@
    }
}

impl<'a, I: Idx, T> Clone for IdxSlice<'a, I, T> {
    fn clone(&self) -> (r: Self)
        ensures
            r == *self,
    {
        IdxSlice { slice: self.slice, _marker: PhantomData }
    }
}

impl<'a, I: Idx, T> Copy for IdxSlice<'a, I, T> {

}

impl<'a, I: Idx, T> IdxSlice<'a, I, T> {
    /// The view of a plain slice.
    pub fn new(slice: &'a [T]) -> (r: Self)
        ensures
            r@ == slice@,
            r.slice == slice,
    {
        IdxSlice { slice, _marker: PhantomData }
    }

    /// The elements as a plain slice.
    pub fn as_raw_slice(self) -> (r: &'a [T])
        ensures
            r@ == self@,
    {
        self.slice
    }

    pub fn len(self) -> (r: usize)
        ensures
            r == self@.len(),
    {
        self.slice.len()
    }

    pub fn is_empty(self) -> (r: bool)
        ensures
            r == (self@.len() == 0),
    {
        self.slice.len() == 0
    }

    /// The narrower view that a range of positions covers, if it fits.
    pub fn subslice(self, range: UsizeRange) -> (r: Option<IdxSlice<'a, I, T>>)
        ensures
            r.is_some() == range.fits(self@.len()),
            r matches Some(v) ==> v@ == range.slice_of(self@),
    {
        match range.resolve(self.slice.len()) {
            Some((lo, hi)) => Some(IdxSlice::new(vstd::slice::slice_subrange(self.slice, lo, hi))),
            None => None,
        }
    }

    /// The element or the narrower view that `index` selects, or nothing
    /// where it is out of range.
    pub fn get<J: IdxSliceIndex<'a, I, T>>(self, index: J) -> (r: Option<J::Output>)
        ensures
            r.is_some() == index.in_bounds(self@.len()),
            r matches Some(out) ==> index.selects(self@, out),
    {
        index.get(self)
    }

    /// The element or the narrower view that `index` selects.
    pub fn index<J: IdxSliceIndex<'a, I, T>>(self, index: J) -> (r: J::Output)
        requires
            index.in_bounds(self@.len()),
        ensures
            index.selects(self@, r),
    {
        index.index(self)
    }

    /// The index of the last element.
    pub fn last_idx(self) -> (r: I)
        requires
            self@.len() > 0,
            I::admits((self@.len() - 1) as usize),
        ensures
            r == I::from_usize_spec((self@.len() - 1) as usize),
    {
        I::from_usize(self.slice.len() - 1)
    }

    /// The index of every position, in order.
    pub fn indices(self) -> (r: Vec<I>)
        requires
            forall|k: usize| k < self@.len() ==> I::admits(k),
        ensures
            r@.len() == self@.len(),
            forall|k: int| 0 <= k < r@.len() ==> r@[k] == I::from_usize_spec(k as usize),
    {
        let n = self.slice.len();
        let mut out: Vec<I> = Vec::new();
        let mut k: usize = 0;
        while k < n
            invariant
                k <= n,
                n == self@.len(),
                out@.len() == k,
                forall|j: usize| j < self@.len() ==> I::admits(j),
                forall|j: int| 0 <= j < k ==> out@[j] == I::from_usize_spec(j as usize),
            decreases n - k,
        {
            out.push(I::from_usize(k));
            k += 1;
        }
        out
    }

    /// Every element with its index, in order.
    pub fn iter_enumerated(self) -> (r: Vec<(I, &'a T)>)
        requires
            forall|k: usize| k < self@.len() ==> I::admits(k),
        ensures
            r@.len() == self@.len(),
            forall|k: int|
                0 <= k < r@.len() ==> r@[k] == (I::from_usize_spec(k as usize), &self@[k]),
    {
        let n = self.slice.len();
        let mut out: Vec<(I, &'a T)> = Vec::new();
        let mut k: usize = 0;
        while k < n
            invariant
                k <= n,
                n == self@.len(),
                out@.len() == k,
                forall|j: usize| j < self@.len() ==> I::admits(j),
                forall|j: int|
                    0 <= j < k ==> out@[j] == (I::from_usize_spec(j as usize), &self@[j]),
            decreases n - k,
        {
            out.push((I::from_usize(k), &self.slice[k]));
            k += 1;
        }
        out
    }
}

/// An exclusive view of a run of elements: through it they can be replaced,
/// but none can be added or removed.
pub struct IdxSliceMut<'a, I: Idx, T> {
    pub slice: &'a mut [T],
    pub _marker: PhantomData<I>,
}

impl<'a, I: Idx, T> IdxSliceMut<'a, I, T> {
    /// The view of a plain slice.
    pub fn new(slice: &'a mut [T]) -> (r: Self)
        ensures
            r.slice@ == old(slice)@,
            final(slice)@ == final(r.slice)@,
    {
        IdxSliceMut { slice, _marker: PhantomData }
    }

    /// The elements as a plain slice.
    pub fn as_raw_slice_mut(self) -> (r: &'a mut [T])
        ensures
            r@ == old(self.slice)@,
            final(self.slice)@ == final(r)@,
    {
        self.slice
    }

    pub fn len(&self) -> (r: usize)
        ensures
            r == old(self.slice)@.len(),
    {
        self.slice.len()
    }

    /// The run of elements that a range of positions covers, if it fits.
    /// What is written through the result lands in that stretch of the
    /// view; the elements around it stay.
    pub fn subslice_mut(self, range: UsizeRange) -> (r: Option<&'a mut [T]>)
        ensures
            r.is_some() == range.fits(old(self.slice)@.len()),
            r matches Some(out) ==> {
                &&& out@ == range.slice_of(old(self.slice)@)
                &&& final(self.slice)@ == spliced(
                    old(self.slice)@,
                    range.start as int,
                    range.upper(old(self.slice)@.len()),
                    final(out)@,
                )
            },
            r is None ==> final(self.slice)@ == old(self.slice)@,
    {
        let IdxSliceMut { slice, _marker } = self;
        match range.resolve(slice.len()) {
            Some((lo, hi)) => {
                let (head, tail) = slice.split_at_mut(hi);
                let (front, mid) = head.split_at_mut(lo);
                assert(mid@ == range.slice_of(old(self.slice)@));
                Some(mid)
            },
            None => None,
        }
    }

    /// Every element with its index, in order, each to write through.
    pub fn iter_mut_enumerated(self) -> (r: Vec<(I, &'a mut T)>)
        requires
            forall|k: usize| k < old(self.slice)@.len() ==> I::admits(k),
        ensures
            r@.len() == old(self.slice)@.len(),
            final(self.slice)@.len() == old(self.slice)@.len(),
            forall|k: int|
                0 <= k < r@.len() ==> {
                    &&& (#[trigger] r@[k]).0 == I::from_usize_spec(k as usize)
                    &&& *r@[k].1 == old(self.slice)@[k]
                    &&& final(self.slice)@[k] == *final(r@[k].1)
                },
    {
        let IdxSliceMut { slice, _marker } = self;
        let n = slice.len();
        let mut out: Vec<(I, &'a mut T)> = Vec::new();
        let mut rest = slice;
        let mut k: usize = 0;
        while k < n
            invariant
                k <= n,
                n == old(self.slice)@.len(),
                out@.len() == k,
                rest@ == old(self.slice)@.skip(k as int),
                forall|j: usize| j < n ==> I::admits(j),
                forall|j: int|
                    0 <= j < k ==> {
                        &&& (#[trigger] out@[j]).0 == I::from_usize_spec(j as usize)
                        &&& *out@[j].1 == old(self.slice)@[j]
                    },
                final(slice)@ == Seq::new(k as nat, |j: int| *final(out@[j].1)) + final(rest)@,
            decreases n - k,
        {
            let (head, tail) = rest.split_at_mut(1);
            out.push((I::from_usize(k), &mut head[0]));
            rest = tail;
            k += 1;
        }
        out
    }

    /// The element, or the run of elements, that `index` selects, or nothing
    /// where it is out of range.
    pub fn get_mut<J: IdxSliceIndex<'a, I, T>>(self, index: J) -> (r: Option<&'a mut J::Target>)
        ensures
            r.is_some() == index.in_bounds(old(self.slice)@.len()),
            r matches Some(out) ==> index.selects_mut(
                old(self.slice)@,
                &*out,
                &*final(out),
                final(self.slice)@,
            ),
            r is None ==> final(self.slice)@ == old(self.slice)@,
    {
        index.get_mut(self)
    }

    /// The element, or the run of elements, that `index` selects.
    pub fn index_mut<J: IdxSliceIndex<'a, I, T>>(self, index: J) -> (r: &'a mut J::Target)
        requires
            index.in_bounds(old(self.slice)@.len()),
        ensures
            index.selects_mut(old(self.slice)@, &*r, &*final(r), final(self.slice)@),
    {
        index.index_mut(self)
    }
}

/// The sequence `s` with the stretch from `lo` up to `hi` replaced by `mid`.
pub open spec fn spliced<T>(s: Seq<T>, lo: int, hi: int, mid: Seq<T>) -> Seq<T>
    recommends
        0 <= lo <= hi <= s.len(),
{
    s.subrange(0, lo) + mid + s.subrange(hi, s.len() as int)
}

} // verus!
