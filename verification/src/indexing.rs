//! What an array can be indexed with: a single index, a range of indices,
//! the full span, or a plain position.

use vstd::prelude::*;
use core::ops::{Range, RangeFrom, RangeFull, RangeInclusive, RangeTo, RangeToInclusive};
use crate::idx::Idx;
use crate::idxslice::{spliced, IdxSlice, IdxSliceMut};
use crate::private_slice_index::Sealed;
use crate::range_bounds::IdxRangeBounds;

verus! {

/// One way of selecting from a view. A single index or a plain position
/// selects an element; a range selects a narrower view. The set is closed.
///
/// `get` and `get_mut` answer nothing where the selection is out of range;
/// `index` and `index_mut` are for selections known to be in range.
pub trait IdxSliceIndex<'a, I: Idx, T: 'a>: Sealed + Sized {
    /// What shared access gives: a reference to an element, or a view.
    type Output;

    /// What exclusive access refers to: an element, or a run of elements.
    type Target: ?Sized;

    /// Whether the selection lies within `len` elements.
    spec fn in_bounds(self, len: nat) -> bool;

    /// Whether `out` is what the selection picks from `s`.
    spec fn selects(self, s: Seq<T>, out: Self::Output) -> bool;

    /// Whether `now` is what the selection picks from `before`, and `after`
    /// is `before` with `later` in its place.
    spec fn selects_mut(
        self,
        before: Seq<T>,
        now: &Self::Target,
        later: &Self::Target,
        after: Seq<T>,
    ) -> bool;

    fn get(self, slice: IdxSlice<'a, I, T>) -> (r: Option<Self::Output>)
        ensures
            r.is_some() == self.in_bounds(slice@.len()),
            r matches Some(out) ==> self.selects(slice@, out),
    ;

    fn get_mut(self, slice: IdxSliceMut<'a, I, T>) -> (r: Option<&'a mut Self::Target>)
        ensures
            r.is_some() == self.in_bounds(old(slice.slice)@.len()),
            r matches Some(out) ==> self.selects_mut(
                old(slice.slice)@,
                &*out,
                &*final(out),
                final(slice.slice)@,
            ),
            r is None ==> final(slice.slice)@ == old(slice.slice)@,
    ;

    fn index(self, slice: IdxSlice<'a, I, T>) -> (r: Self::Output)
        requires
            self.in_bounds(slice@.len()),
        ensures
            self.selects(slice@, r),
    ;

    fn index_mut(self, slice: IdxSliceMut<'a, I, T>) -> (r: &'a mut Self::Target)
        requires
            self.in_bounds(old(slice.slice)@.len()),
        ensures
            self.selects_mut(old(slice.slice)@, &*r, &*final(r), final(slice.slice)@),
    ;
}

impl<'a, I: Idx, T: 'a> IdxSliceIndex<'a, I, T> for I {
    type Output = &'a T;

    type Target = T;

    open spec fn in_bounds(self, len: nat) -> bool {
        self.index_spec() < len
    }

    open spec fn selects(self, s: Seq<T>, out: &'a T) -> bool {
        *out == s[self.index_spec() as int]
    }

    open spec fn selects_mut(self, before: Seq<T>, now: &T, later: &T, after: Seq<T>) -> bool {
        &&& *now == before[self.index_spec() as int]
        &&& after == before.update(self.index_spec() as int, *later)
    }

    fn get(self, slice: IdxSlice<'a, I, T>) -> (r: Option<&'a T>) {
        Idx::index(self).get(slice)
    }

    fn get_mut(self, slice: IdxSliceMut<'a, I, T>) -> (r: Option<&'a mut T>) {
        Idx::index(self).get_mut(slice)
    }

    fn index(self, slice: IdxSlice<'a, I, T>) -> (r: &'a T) {
        &slice.slice[Idx::index(self)]
    }

    fn index_mut(self, slice: IdxSliceMut<'a, I, T>) -> (r: &'a mut T) {
        let i = Idx::index(self);
        let IdxSliceMut { slice, _marker } = slice;
        &mut slice[i]
    }
}

impl<'a, I: Idx, T: 'a> IdxSliceIndex<'a, I, T> for usize {
    type Output = &'a T;

    type Target = T;

    open spec fn in_bounds(self, len: nat) -> bool {
        self < len
    }

    open spec fn selects(self, s: Seq<T>, out: &'a T) -> bool {
        *out == s[self as int]
    }

    open spec fn selects_mut(self, before: Seq<T>, now: &T, later: &T, after: Seq<T>) -> bool {
        &&& *now == before[self as int]
        &&& after == before.update(self as int, *later)
    }

    fn get(self, slice: IdxSlice<'a, I, T>) -> (r: Option<&'a T>) {
        if self < slice.slice.len() {
            Some(&slice.slice[self])
        } else {
            None
        }
    }

    fn get_mut(self, slice: IdxSliceMut<'a, I, T>) -> (r: Option<&'a mut T>) {
        let IdxSliceMut { slice, _marker } = slice;
        if self < slice.len() {
            Some(&mut slice[self])
        } else {
            None
        }
    }

    fn index(self, slice: IdxSlice<'a, I, T>) -> (r: &'a T) {
        &slice.slice[self]
    }

    fn index_mut(self, slice: IdxSliceMut<'a, I, T>) -> (r: &'a mut T) {
        let IdxSliceMut { slice, _marker } = slice;
        &mut slice[self]
    }
}

impl<'a, I: Idx, T: 'a> IdxSliceIndex<'a, I, T> for Range<I> {
    type Output = IdxSlice<'a, I, T>;

    type Target = [T];

    open spec fn in_bounds(self, len: nat) -> bool {
        self.range_spec().fits(len)
    }

    open spec fn selects(self, s: Seq<T>, out: IdxSlice<'a, I, T>) -> bool {
        out@ == self.range_spec().slice_of(s)
    }

    open spec fn selects_mut(self, before: Seq<T>, now: &[T], later: &[T], after: Seq<T>) -> bool {
        &&& now@ == self.range_spec().slice_of(before)
        &&& after == spliced(
            before,
            self.range_spec().start as int,
            self.range_spec().upper(before.len()),
            later@,
        )
    }

    fn get(self, slice: IdxSlice<'a, I, T>) -> (r: Option<IdxSlice<'a, I, T>>) {
        slice.subslice(self.into_range())
    }

    fn get_mut(self, slice: IdxSliceMut<'a, I, T>) -> (r: Option<&'a mut [T]>) {
        slice.subslice_mut(self.into_range())
    }

    fn index(self, slice: IdxSlice<'a, I, T>) -> (r: IdxSlice<'a, I, T>) {
        slice.subslice(self.into_range()).unwrap()
    }

    fn index_mut(self, slice: IdxSliceMut<'a, I, T>) -> (r: &'a mut [T]) {
        slice.subslice_mut(self.into_range()).unwrap()
    }
}

impl<'a, I: Idx, T: 'a> IdxSliceIndex<'a, I, T> for RangeFrom<I> {
    type Output = IdxSlice<'a, I, T>;

    type Target = [T];

    open spec fn in_bounds(self, len: nat) -> bool {
        self.range_spec().fits(len)
    }

    open spec fn selects(self, s: Seq<T>, out: IdxSlice<'a, I, T>) -> bool {
        out@ == self.range_spec().slice_of(s)
    }

    open spec fn selects_mut(self, before: Seq<T>, now: &[T], later: &[T], after: Seq<T>) -> bool {
        &&& now@ == self.range_spec().slice_of(before)
        &&& after == spliced(
            before,
            self.range_spec().start as int,
            self.range_spec().upper(before.len()),
            later@,
        )
    }

    fn get(self, slice: IdxSlice<'a, I, T>) -> (r: Option<IdxSlice<'a, I, T>>) {
        slice.subslice(self.into_range())
    }

    fn get_mut(self, slice: IdxSliceMut<'a, I, T>) -> (r: Option<&'a mut [T]>) {
        slice.subslice_mut(self.into_range())
    }

    fn index(self, slice: IdxSlice<'a, I, T>) -> (r: IdxSlice<'a, I, T>) {
        slice.subslice(self.into_range()).unwrap()
    }

    fn index_mut(self, slice: IdxSliceMut<'a, I, T>) -> (r: &'a mut [T]) {
        slice.subslice_mut(self.into_range()).unwrap()
    }
}

impl<'a, I: Idx, T: 'a> IdxSliceIndex<'a, I, T> for RangeTo<I> {
    type Output = IdxSlice<'a, I, T>;

    type Target = [T];

    open spec fn in_bounds(self, len: nat) -> bool {
        self.range_spec().fits(len)
    }

    open spec fn selects(self, s: Seq<T>, out: IdxSlice<'a, I, T>) -> bool {
        out@ == self.range_spec().slice_of(s)
    }

    open spec fn selects_mut(self, before: Seq<T>, now: &[T], later: &[T], after: Seq<T>) -> bool {
        &&& now@ == self.range_spec().slice_of(before)
        &&& after == spliced(
            before,
            self.range_spec().start as int,
            self.range_spec().upper(before.len()),
            later@,
        )
    }

    fn get(self, slice: IdxSlice<'a, I, T>) -> (r: Option<IdxSlice<'a, I, T>>) {
        slice.subslice(self.into_range())
    }

    fn get_mut(self, slice: IdxSliceMut<'a, I, T>) -> (r: Option<&'a mut [T]>) {
        slice.subslice_mut(self.into_range())
    }

    fn index(self, slice: IdxSlice<'a, I, T>) -> (r: IdxSlice<'a, I, T>) {
        slice.subslice(self.into_range()).unwrap()
    }

    fn index_mut(self, slice: IdxSliceMut<'a, I, T>) -> (r: &'a mut [T]) {
        slice.subslice_mut(self.into_range()).unwrap()
    }
}

impl<'a, I: Idx, T: 'a> IdxSliceIndex<'a, I, T> for RangeInclusive<I> {
    type Output = IdxSlice<'a, I, T>;

    type Target = [T];

    open spec fn in_bounds(self, len: nat) -> bool {
        self.range_spec().fits(len)
    }

    open spec fn selects(self, s: Seq<T>, out: IdxSlice<'a, I, T>) -> bool {
        out@ == self.range_spec().slice_of(s)
    }

    open spec fn selects_mut(self, before: Seq<T>, now: &[T], later: &[T], after: Seq<T>) -> bool {
        &&& now@ == self.range_spec().slice_of(before)
        &&& after == spliced(
            before,
            self.range_spec().start as int,
            self.range_spec().upper(before.len()),
            later@,
        )
    }

    fn get(self, slice: IdxSlice<'a, I, T>) -> (r: Option<IdxSlice<'a, I, T>>) {
        slice.subslice(self.into_range())
    }

    fn get_mut(self, slice: IdxSliceMut<'a, I, T>) -> (r: Option<&'a mut [T]>) {
        slice.subslice_mut(self.into_range())
    }

    fn index(self, slice: IdxSlice<'a, I, T>) -> (r: IdxSlice<'a, I, T>) {
        slice.subslice(self.into_range()).unwrap()
    }

    fn index_mut(self, slice: IdxSliceMut<'a, I, T>) -> (r: &'a mut [T]) {
        slice.subslice_mut(self.into_range()).unwrap()
    }
}

impl<'a, I: Idx, T: 'a> IdxSliceIndex<'a, I, T> for RangeToInclusive<I> {
    type Output = IdxSlice<'a, I, T>;

    type Target = [T];

    open spec fn in_bounds(self, len: nat) -> bool {
        self.range_spec().fits(len)
    }

    open spec fn selects(self, s: Seq<T>, out: IdxSlice<'a, I, T>) -> bool {
        out@ == self.range_spec().slice_of(s)
    }

    open spec fn selects_mut(self, before: Seq<T>, now: &[T], later: &[T], after: Seq<T>) -> bool {
        &&& now@ == self.range_spec().slice_of(before)
        &&& after == spliced(
            before,
            self.range_spec().start as int,
            self.range_spec().upper(before.len()),
            later@,
        )
    }

    fn get(self, slice: IdxSlice<'a, I, T>) -> (r: Option<IdxSlice<'a, I, T>>) {
        slice.subslice(self.into_range())
    }

    fn get_mut(self, slice: IdxSliceMut<'a, I, T>) -> (r: Option<&'a mut [T]>) {
        slice.subslice_mut(self.into_range())
    }

    fn index(self, slice: IdxSlice<'a, I, T>) -> (r: IdxSlice<'a, I, T>) {
        slice.subslice(self.into_range()).unwrap()
    }

    fn index_mut(self, slice: IdxSliceMut<'a, I, T>) -> (r: &'a mut [T]) {
        slice.subslice_mut(self.into_range()).unwrap()
    }
}

impl<'a, I: Idx, T: 'a> IdxSliceIndex<'a, I, T> for RangeFull {
    type Output = IdxSlice<'a, I, T>;

    type Target = [T];

    /// The full span is always in range.
    open spec fn in_bounds(self, len: nat) -> bool {
        true
    }

    open spec fn selects(self, s: Seq<T>, out: IdxSlice<'a, I, T>) -> bool {
        out@ == s
    }

    open spec fn selects_mut(self, before: Seq<T>, now: &[T], later: &[T], after: Seq<T>) -> bool {
        &&& now@ == before
        &&& after == later@
    }

    fn get(self, slice: IdxSlice<'a, I, T>) -> (r: Option<IdxSlice<'a, I, T>>) {
        Some(slice)
    }

    fn get_mut(self, slice: IdxSliceMut<'a, I, T>) -> (r: Option<&'a mut [T]>) {
        Some(slice.as_raw_slice_mut())
    }

    fn index(self, slice: IdxSlice<'a, I, T>) -> (r: IdxSlice<'a, I, T>) {
        slice
    }

    fn index_mut(self, slice: IdxSliceMut<'a, I, T>) -> (r: &'a mut [T]) {
        slice.as_raw_slice_mut()
    }
}

} // verus!
