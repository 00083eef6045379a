//! What holds of the array and its indices across several operations.

use vstd::prelude::*;
use core::ops::Range;
use crate::idx::{holds_exactly, Idx};
use crate::idxslice::IdxSlice;
use crate::index_type::IndexType;
use crate::index_vec::IndexVec;
use crate::index_vec_ranges::enumerated;
use crate::indexing::IdxSliceIndex;
use crate::repr::Repr;
use crate::usize_range::{RangeEnd, UsizeRange};

verus! {

/// The index that `push` returns stands for the length before the push, and
/// under it `get` finds the element that was pushed. This is stated for
/// index types that hold that length exactly.
pub proof fn lemma_push_then_get<I: Idx, T>(before: Seq<T>, e: T)
    requires
        before.len() <= usize::MAX,
        I::admits(before.len() as usize),
        holds_exactly::<I>(before.len() as usize),
    ensures
        ({
            let idx = I::from_usize_spec(before.len() as usize);
            let after = before.push(e);
            &&& idx.index_spec() == before.len()
            &&& <I as IdxSliceIndex<'_, I, T>>::in_bounds(idx, after.len())
            &&& forall|out: &T| idx.selects(after, out) ==> *out == e
        }),
{
}

/// Draining the full span with indices hands out every element with the
/// index of its position, in order, and leaves the array empty. The indices
/// give the positions back where the index type holds them exactly.
pub proof fn lemma_drain_enumerated_full_span<I: Idx, T>(before: Seq<T>)
    requires
        before.len() <= usize::MAX,
        forall|j: usize| j < before.len() ==> holds_exactly::<I>(j),
    ensures
        ({
            let full = UsizeRange { start: 0, end: RangeEnd::Unbounded };
            let pairs = enumerated::<I, T>(full.slice_of(before), full.start as int);
            &&& full.fits(before.len())
            &&& pairs.len() == before.len()
            &&& forall|j: int|
                0 <= j < before.len() ==> (#[trigger] pairs[j]).0.index_spec() == j && pairs[j].1
                    == before[j]
            &&& full.rest_of(before) == Seq::<T>::empty()
        }),
{
    let full = UsizeRange { start: 0, end: RangeEnd::Unbounded };
    let pairs = enumerated::<I, T>(full.slice_of(before), full.start as int);
    assert(full.slice_of(before) =~= before);
    assert(full.rest_of(before) =~= Seq::<T>::empty());
    assert forall|j: int| 0 <= j < before.len() implies (#[trigger] pairs[j]).0.index_spec() == j
        && pairs[j].1 == before[j] by {
        assert(holds_exactly::<I>(j as usize));
    }
}

/// Once the full span is drained nothing is left, and the index that
/// `next_idx` and `push` then make is admitted and stands for position 0.
/// This is stated for the index types of this crate; `Idx` alone does not
/// say which position the index of 0 stands for.
pub proof fn lemma_next_idx_after_full_drain<
    R: Repr,
    const DOMAIN: usize,
    const MAX_INDEX: usize,
    const CHECKS_MAX_INDEX: bool,
    T,
>(before: Seq<T>)
    ensures
        ({
            let full = UsizeRange { start: 0, end: RangeEnd::Unbounded };
            let after = full.rest_of(before);
            &&& after.len() == 0
            &&& IndexType::<R, DOMAIN, MAX_INDEX, CHECKS_MAX_INDEX>::admits(after.len() as usize)
            &&& IndexType::<R, DOMAIN, MAX_INDEX, CHECKS_MAX_INDEX>::from_usize_spec(
                after.len() as usize,
            ).index_spec() == 0
        }),
{
    IndexType::<R, DOMAIN, MAX_INDEX, CHECKS_MAX_INDEX>::lemma_zero();
}

/// With checking, an array that is longer than `MAX_INDEX` has no next
/// index: the position that `next_idx` and `push` would make an index of
/// is not admitted, so neither can be called. Without checking both can be
/// called on an array of any length.
pub proof fn lemma_next_idx_within_max<
    R: Repr,
    const DOMAIN: usize,
    const MAX_INDEX: usize,
    const CHECKS_MAX_INDEX: bool,
    T,
>(array: IndexVec<IndexType<R, DOMAIN, MAX_INDEX, CHECKS_MAX_INDEX>, T>)
    ensures
        CHECKS_MAX_INDEX ==> (IndexType::<R, DOMAIN, MAX_INDEX, CHECKS_MAX_INDEX>::admits(
            array@.len() as usize,
        ) <==> array@.len() <= MAX_INDEX),
        !CHECKS_MAX_INDEX ==> IndexType::<R, DOMAIN, MAX_INDEX, CHECKS_MAX_INDEX>::admits(
            array@.len() as usize,
        ),
{
    vstd::std_specs::vec::axiom_spec_len(&array.vec);
}

/// An array made of a `Vec` shows, as a plain slice, exactly the elements of
/// that `Vec`.
pub proof fn lemma_from_vec_as_raw_slice<I: Idx, T>(v: Vec<T>, array: IndexVec<I, T>, shown: &[T])
    requires
        array.vec == v,
        shown@ == array@,
    ensures
        shown@ == v@,
{
}

/// Cutting an array in two at a position within it and appending the part
/// that was cut off gives the array back.
pub proof fn lemma_split_off_then_append<T>(before: Seq<T>, at: int)
    requires
        0 <= at <= before.len(),
    ensures
        before.take(at) + before.skip(at) == before,
{
    assert(before.take(at) + before.skip(at) =~= before);
}

/// A half-open range of indices within an array selects a view that is as
/// long as the range, and whose element at position `k` is the array's
/// element at the range's start plus `k`.
pub proof fn lemma_half_open_slice<'a, I: Idx, T>(
    array: Seq<T>,
    start: I,
    end: I,
    out: IdxSlice<'a, I, T>,
)
    requires
        start.index_spec() <= end.index_spec() <= array.len(),
        (Range { start, end }).selects(array, out),
    ensures
        <Range<I> as IdxSliceIndex<'a, I, T>>::in_bounds(Range { start, end }, array.len()),
        out@.len() == end.index_spec() - start.index_spec(),
        forall|k: int|
            0 <= k < out@.len() ==> out@[k] == array[start.index_spec() + k],
{
}

} // verus!
