//! What this crate takes on trust of std's range types.
//!
//! Four range types are declared as std has them, with their public fields,
//! so that a range written with `..` can be handed to this crate and its
//! endpoints read. Nothing is claimed of them. The two functions are the
//! accessors of `RangeInclusive`, whose fields std keeps private.

use vstd::prelude::*;
use core::ops::{RangeFrom, RangeFull, RangeInclusive, RangeTo, RangeToInclusive};

verus! {

/// `core::ops::RangeFrom`, the range `start..`: one public field, `start`.
#[verifier::external_type_specification]
#[verifier::reject_recursive_types(A)]
pub struct ExRangeFrom<A>(RangeFrom<A>);

/// `core::ops::RangeTo`, the range `..end`: one public field, `end`.
#[verifier::external_type_specification]
#[verifier::reject_recursive_types(A)]
pub struct ExRangeTo<A>(RangeTo<A>);

/// `core::ops::RangeToInclusive`, the range `..=end`: one public field,
/// `end`.
#[verifier::external_type_specification]
#[verifier::reject_recursive_types(A)]
pub struct ExRangeToInclusive<A>(RangeToInclusive<A>);

/// `core::ops::RangeFull`, the range `..`: no field.
#[verifier::external_type_specification]
pub struct ExRangeFull(RangeFull);

/// `RangeInclusive::start` of std: a reference to the lower bound that the
/// range was made with.
pub assume_specification<A>[ RangeInclusive::<A>::start ](r: &RangeInclusive<A>) -> (s: &A)
    ensures
        *s == r@.start,
;

/// `RangeInclusive::end` of std: a reference to the upper bound that the
/// range was made with.
pub assume_specification<A>[ RangeInclusive::<A>::end ](r: &RangeInclusive<A>) -> (e: &A)
    ensures
        *e == r@.end,
;

} // verus!
