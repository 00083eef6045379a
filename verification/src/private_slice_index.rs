use vstd::prelude::*;
use core::ops::{Range, RangeFrom, RangeFull, RangeInclusive, RangeTo, RangeToInclusive};
use crate::idx::Idx;

verus! {

/// Closes the set of what an array can be indexed with: nothing outside this
/// crate can name it.
pub trait Sealed {

}

impl<I: Idx> Sealed for I {

}

impl<I: Idx> Sealed for Range<I> {

}

impl<I: Idx> Sealed for RangeFrom<I> {

}

impl<I: Idx> Sealed for RangeTo<I> {

}

impl<I: Idx> Sealed for RangeInclusive<I> {

}

impl<I: Idx> Sealed for RangeToInclusive<I> {

}

impl Sealed for RangeFull {

}

impl Sealed for usize {

}

} // verus!
