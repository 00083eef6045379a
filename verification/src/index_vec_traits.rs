//! The array under std's traits: default, clone, conversion from a `Vec`,
//! indexing with `[]`, and the ways out to a plain slice or an iterator.

use vstd::prelude::*;
use vstd::std_specs::convert::FromSpecImpl;
use core::marker::PhantomData;
use crate::idx::Idx;
use crate::index_vec::IndexVec;

verus! {

impl<I: Idx, T> Default for IndexVec<I, T> {
    fn default() -> (r: Self)
        ensures
            r@ == Seq::<T>::empty(),
    {
        Self::new()
    }
}

impl<I: Idx, T: Clone> Clone for IndexVec<I, T> {
    fn clone(&self) -> (r: Self)
        ensures
            r@.len() == self@.len(),
            forall|i: int| 0 <= i < self@.len() ==> cloned::<T>(self@[i], #[trigger] r@[i]),
    {
        IndexVec { vec: self.vec.clone(), _marker: PhantomData }
    }
}

impl<I: Idx, T> From<Vec<T>> for IndexVec<I, T> {
    /// Wraps the `Vec` as it is. Unlike `from_vec` this asks nothing of the
    /// length.
    fn from(v: Vec<T>) -> (r: Self) {
        IndexVec { vec: v, _marker: PhantomData }
    }
}

impl<I: Idx, T> FromSpecImpl<Vec<T>> for IndexVec<I, T> {
    open spec fn obeys_from_spec() -> bool {
        true
    }

    open spec fn from_spec(v: Vec<T>) -> Self {
        IndexVec { vec: v, _marker: PhantomData }
    }
}

impl<I: Idx, T> core::ops::Index<I> for IndexVec<I, T> {
    type Output = T;

    /// The element at `index`, which must be in range.
    fn index(&self, index: I) -> (r: &T)
        ensures
            *r == self@[index.index_spec() as int],
    {
        &self.vec[index.index()]
    }
}

impl<I: Idx, T> vstd::std_specs::core::IndexSpecImpl<I> for IndexVec<I, T> {
    open spec fn index_req(&self, index: &I) -> bool {
        index.index_spec() < self@.len()
    }
}

impl<I: Idx, T> core::ops::IndexMut<I> for IndexVec<I, T> {
    /// The element at `index`, which must be in range, to write through.
    fn index_mut(&mut self, index: I) -> (r: &mut T)
        requires
            index.index_spec() < old(self)@.len(),
        ensures
            *r == old(self)@[index.index_spec() as int],
            final(self)@ == old(self)@.update(index.index_spec() as int, *final(r)),
    {
        &mut self.vec[index.index()]
    }
}

impl<I: Idx, T> core::ops::Index<usize> for IndexVec<I, T> {
    type Output = T;

    /// The element at a plain position, which must be in range.
    fn index(&self, index: usize) -> (r: &T)
        ensures
            *r == self@[index as int],
    {
        &self.vec[index]
    }
}

impl<I: Idx, T> vstd::std_specs::core::IndexSpecImpl<usize> for IndexVec<I, T> {
    open spec fn index_req(&self, index: &usize) -> bool {
        index < self@.len()
    }
}

impl<I: Idx, T> core::ops::IndexMut<usize> for IndexVec<I, T> {
    /// The element at a plain position, which must be in range, to write
    /// through.
    fn index_mut(&mut self, index: usize) -> (r: &mut T)
        requires
            index < old(self)@.len(),
        ensures
            *r == old(self)@[index as int],
            final(self)@ == old(self)@.update(index as int, *final(r)),
    {
        &mut self.vec[index]
    }
}

impl<I: Idx, T> IntoIterator for IndexVec<I, T> {
    type Item = T;

    type IntoIter = std::vec::IntoIter<T>;

    /// The iterator of the `Vec` that holds the elements.
    fn into_iter(self) -> (r: std::vec::IntoIter<T>)
        ensures
            r == vstd::std_specs::vec::spec_into_iter(self.vec),
    {
        self.vec.into_iter()
    }
}

impl<I: Idx, T> AsRef<[T]> for IndexVec<I, T> {
    fn as_ref(&self) -> (r: &[T])
        ensures
            r@ == self@,
    {
        self.vec.as_slice()
    }
}

impl<I: Idx, T> AsMut<[T]> for IndexVec<I, T> {
    fn as_mut(&mut self) -> (r: &mut [T])
        ensures
            r@ == old(self)@,
            final(self)@ == final(r)@,
    {
        self.vec.as_mut_slice()
    }
}

} // verus!
