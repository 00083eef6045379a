//! The array that is addressed by one index type only.

use vstd::prelude::*;
use core::marker::PhantomData;
use crate::idx::{holds_exactly, Idx};
use crate::idxslice::{IdxSlice, IdxSliceMut};
use crate::indexing::IdxSliceIndex;

verus! {

/// A growable array whose positions are indices of type `I`.
///
/// It is a `Vec` and nothing more: the `Vec` is a public field, and whatever
/// this type does not offer can be done on it directly. The array does not
/// watch its length: whether the index type can hold a position is asked
/// only where an index is made.
#[derive(Debug, Eq, PartialOrd, Ord, Hash)]
pub struct IndexVec<I: Idx, T> {
    pub vec: Vec<T>,
    pub _marker: PhantomData<I>,
}

impl<I: Idx, T> View for IndexVec<I, T> {
    type V = Seq<T>;

    open spec fn view(&self) -> Seq<T> {
        self.vec@
    }
}

impl<I: Idx, T> IndexVec<I, T> {
    /// An empty array.
    pub fn new() -> (r: Self)
        ensures
            r@ == Seq::<T>::empty(),
    {
        IndexVec { vec: Vec::new(), _marker: PhantomData }
    }

    /// The array of the elements of `vec`. The index type must admit the
    /// length, as it would for the next `push`.
    pub fn from_vec(vec: Vec<T>) -> (r: Self)
        requires
            I::admits(vec@.len() as usize),
        ensures
            r.vec == vec,
            r@ == vec@,
    {
        let _ = I::from_usize(vec.len());
        IndexVec { vec, _marker: PhantomData }
    }

    /// An empty array with room for `capacity` elements.
    pub fn with_capacity(capacity: usize) -> (r: Self)
        ensures
            r@ == Seq::<T>::empty(),
    {
        IndexVec { vec: Vec::with_capacity(capacity), _marker: PhantomData }
    }

    /// The number of elements.
    pub fn len(&self) -> (r: usize)
        ensures
            r == self@.len(),
    {
        self.vec.len()
    }

    pub fn is_empty(&self) -> (r: bool)
        ensures
            r == (self@.len() == 0),
    {
        self.vec.len() == 0
    }

    /// The index that the next `push` will return.
    pub fn next_idx(&self) -> (r: I)
        requires
            I::admits(self@.len() as usize),
        ensures
            r == I::from_usize_spec(self@.len() as usize),
    {
        I::from_usize(self.vec.len())
    }

    /// The index of the last element.
    pub fn last_idx(&self) -> (r: I)
        requires
            self@.len() > 0,
            I::admits((self@.len() - 1) as usize),
        ensures
            r == I::from_usize_spec((self@.len() - 1) as usize),
    {
        self.as_slice().last_idx()
    }

    /// The elements as a plain slice.
    pub fn as_raw_slice(&self) -> (r: &[T])
        ensures
            r@ == self@,
    {
        self.vec.as_slice()
    }

    /// The elements as a plain slice through which they can be replaced.
    pub fn as_raw_slice_mut(&mut self) -> (r: &mut [T])
        ensures
            r@ == old(self)@,
            final(self)@ == final(r)@,
    {
        self.vec.as_mut_slice()
    }

    /// The `Vec` that holds the elements.
    pub fn as_vec(&self) -> (r: &Vec<T>)
        ensures
            *r == self.vec,
    {
        &self.vec
    }

    /// The `Vec` that holds the elements, to change it in any way.
    pub fn as_mut_vec(&mut self) -> (r: &mut Vec<T>)
        ensures
            *r == old(self).vec,
            final(self).vec == *final(r),
    {
        &mut self.vec
    }

    /// Appends an element and returns its index. The index is made of the
    /// length before the element is added.
    pub fn push(&mut self, d: T) -> (idx: I)
        requires
            I::admits(old(self)@.len() as usize),
        ensures
            idx == I::from_usize_spec(old(self)@.len() as usize),
            holds_exactly::<I>(old(self)@.len() as usize) ==> idx.index_spec() == old(self)@.len(),
            final(self)@ == old(self)@.push(d),
    {
        let idx = I::from_usize(self.vec.len());
        self.vec.push(d);
        idx
    }

    /// Removes the last element and returns it, or nothing where the array
    /// is empty.
    pub fn pop(&mut self) -> (r: Option<T>)
        ensures
            old(self)@.len() == 0 ==> r is None && final(self)@ == old(self)@,
            old(self)@.len() > 0 ==> r == Some(old(self)@.last()) && final(self)@ == old(
                self,
            )@.drop_last(),
    {
        self.vec.pop()
    }

    /// Keeps the first `a` elements and drops the rest; does nothing where
    /// there are no more than `a`.
    pub fn truncate(&mut self, a: usize)
        ensures
            a <= old(self)@.len() ==> final(self)@ == old(self)@.take(a as int),
            a > old(self)@.len() ==> final(self)@ == old(self)@,
    {
        self.vec.truncate(a)
    }

    /// Removes every element.
    pub fn clear(&mut self)
        ensures
            final(self)@ == Seq::<T>::empty(),
    {
        self.vec.clear()
    }

    /// Makes room for `c` more elements. The elements stay as they are.
    pub fn reserve(&mut self, c: usize)
        ensures
            final(self)@ == old(self)@,
    {
        self.vec.reserve(c)
    }

    /// A view of all the elements.
    pub fn as_slice(&self) -> (r: IdxSlice<'_, I, T>)
        ensures
            r@ == self@,
    {
        IdxSlice::new(self.vec.as_slice())
    }

    /// A view of all the elements through which they can be replaced.
    pub fn as_mut_slice(&mut self) -> (r: IdxSliceMut<'_, I, T>)
        ensures
            r.slice@ == old(self)@,
            final(self)@ == final(r.slice)@,
    {
        IdxSliceMut::new(self.vec.as_mut_slice())
    }

    /// The element or the view that `index` selects, or nothing where it is
    /// out of range.
    pub fn get<'a, J: IdxSliceIndex<'a, I, T>>(&'a self, index: J) -> (r: Option<J::Output>)
        ensures
            r.is_some() == index.in_bounds(self@.len()),
            r matches Some(out) ==> index.selects(self@, out),
    {
        index.get(self.as_slice())
    }

    /// The element, or the run of elements, that `index` selects, to write
    /// through; or nothing where it is out of range.
    pub fn get_mut<'a, J: IdxSliceIndex<'a, I, T>>(&'a mut self, index: J) -> (r: Option<
        &'a mut J::Target,
    >)
        ensures
            r.is_some() == index.in_bounds(old(self)@.len()),
            r matches Some(out) ==> index.selects_mut(
                old(self)@,
                &*out,
                &*final(out),
                final(self)@,
            ),
            r is None ==> final(self)@ == old(self)@,
    {
        index.get_mut(self.as_mut_slice())
    }

    /// Moves the elements of `other` to the end of this array, in order.
    pub fn append(&mut self, other: &mut Self)
        ensures
            final(self)@ == old(self)@ + old(other)@,
            final(other)@ == Seq::<T>::empty(),
    {
        self.vec.append(&mut other.vec)
    }

    /// Cuts the array in two at `idx`: the elements from `idx` on leave and
    /// are returned as an array of their own. An `idx` equal to the length
    /// cuts off nothing. No index is made, so nothing is asked of the index
    /// type about either length.
    pub fn split_off(&mut self, idx: I) -> (r: Self)
        requires
            idx.index_spec() <= old(self)@.len(),
        ensures
            final(self)@ == old(self)@.take(idx.index_spec() as int),
            r@ == old(self)@.skip(idx.index_spec() as int),
    {
        IndexVec { vec: self.vec.split_off(idx.index()), _marker: PhantomData }
    }

    /// Removes the element at `index` and returns it. The elements behind
    /// it move up by one.
    pub fn remove(&mut self, index: I) -> (r: T)
        requires
            index.index_spec() < old(self)@.len(),
        ensures
            r == old(self)@[index.index_spec() as int],
            final(self)@ == old(self)@.remove(index.index_spec() as int),
    {
        self.vec.remove(index.index())
    }

    /// Removes the element at `index` and returns it. The last element
    /// takes its place; no other element moves.
    pub fn swap_remove(&mut self, index: I) -> (r: T)
        requires
            index.index_spec() < old(self)@.len(),
        ensures
            r == old(self)@[index.index_spec() as int],
            final(self)@ == old(self)@.update(
                index.index_spec() as int,
                old(self)@.last(),
            ).drop_last(),
    {
        self.vec.swap_remove(index.index())
    }

    /// Puts `element` at `index`. The elements from there on move down by
    /// one; an `index` equal to the length appends.
    pub fn insert(&mut self, index: I, element: T)
        requires
            index.index_spec() <= old(self)@.len(),
        ensures
            final(self)@ == old(self)@.insert(index.index_spec() as int, element),
    {
        self.vec.insert(index.index(), element)
    }
}

} // verus!
