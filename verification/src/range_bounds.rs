//! The range shapes over typed indices, and the ranges of plain positions
//! that they stand for.

use vstd::prelude::*;
use core::ops::{Range, RangeFrom, RangeFull, RangeInclusive, RangeTo, RangeToInclusive};
use crate::idx::Idx;
use crate::private_range_bounds::Sealed;
use crate::usize_range::{RangeEnd, UsizeRange};

verus! {

/// A range over the indices of one domain. The set of shapes is closed:
/// half-open, from, to, inclusive, to-inclusive and the full span.
///
/// `into_range` only projects each endpoint to its position. Whether the
/// range fits an array is decided later, by `UsizeRange::resolve`, in the
/// same way for every shape.
pub trait IdxRangeBounds<I: Idx>: Sealed + Sized {
    /// The range of plain positions that this range stands for.
    spec fn range_spec(self) -> UsizeRange;

    fn into_range(self) -> (r: UsizeRange)
        ensures
            r == self.range_spec(),
    ;
}

impl<I: Idx> IdxRangeBounds<I> for Range<I> {
    open spec fn range_spec(self) -> UsizeRange {
        UsizeRange {
            start: self.start.index_spec(),
            end: RangeEnd::Excluded(self.end.index_spec()),
        }
    }

    fn into_range(self) -> (r: UsizeRange) {
        UsizeRange { start: self.start.index(), end: RangeEnd::Excluded(self.end.index()) }
    }
}

impl<I: Idx> IdxRangeBounds<I> for RangeFrom<I> {
    open spec fn range_spec(self) -> UsizeRange {
        UsizeRange { start: self.start.index_spec(), end: RangeEnd::Unbounded }
    }

    fn into_range(self) -> (r: UsizeRange) {
        UsizeRange { start: self.start.index(), end: RangeEnd::Unbounded }
    }
}

impl<I: Idx> IdxRangeBounds<I> for RangeFull {
    open spec fn range_spec(self) -> UsizeRange {
        UsizeRange { start: 0, end: RangeEnd::Unbounded }
    }

    fn into_range(self) -> (r: UsizeRange) {
        UsizeRange { start: 0, end: RangeEnd::Unbounded }
    }
}

impl<I: Idx> IdxRangeBounds<I> for RangeTo<I> {
    open spec fn range_spec(self) -> UsizeRange {
        UsizeRange { start: 0, end: RangeEnd::Excluded(self.end.index_spec()) }
    }

    fn into_range(self) -> (r: UsizeRange) {
        UsizeRange { start: 0, end: RangeEnd::Excluded(self.end.index()) }
    }
}

impl<I: Idx> IdxRangeBounds<I> for RangeInclusive<I> {
    open spec fn range_spec(self) -> UsizeRange {
        UsizeRange {
            start: self@.start.index_spec(),
            end: RangeEnd::Included(self@.end.index_spec()),
        }
    }

    fn into_range(self) -> (r: UsizeRange) {
        UsizeRange { start: self.start().index(), end: RangeEnd::Included(self.end().index()) }
    }
}

impl<I: Idx> IdxRangeBounds<I> for RangeToInclusive<I> {
    open spec fn range_spec(self) -> UsizeRange {
        UsizeRange { start: 0, end: RangeEnd::Included(self.end.index_spec()) }
    }

    fn into_range(self) -> (r: UsizeRange) {
        UsizeRange { start: 0, end: RangeEnd::Included(self.end.index()) }
    }
}

} // verus!
