//! Equality and order of indices, among themselves and with plain positions.
//!
//! Two indices of one type compare as their stored values do. Against a
//! `usize` only the index is projected: it compares as its position does,
//! from either side.

use vstd::prelude::*;
use vstd::std_specs::cmp::{PartialEqSpec, PartialEqSpecImpl, PartialOrdSpec, PartialOrdSpecImpl};
use core::cmp::Ordering;
use crate::idx::Idx;
use crate::index_type::IndexType;
use crate::repr::Repr;

verus! {

impl<
    R: Repr,
    const DOMAIN: usize,
    const MAX_INDEX: usize,
    const CHECKS_MAX_INDEX: bool,
> PartialEq for IndexType<R, DOMAIN, MAX_INDEX, CHECKS_MAX_INDEX> {
    fn eq(&self, other: &Self) -> (r: bool) {
        self.raw == other.raw
    }
}

impl<
    R: Repr,
    const DOMAIN: usize,
    const MAX_INDEX: usize,
    const CHECKS_MAX_INDEX: bool,
> PartialEqSpecImpl for IndexType<R, DOMAIN, MAX_INDEX, CHECKS_MAX_INDEX> {
    open spec fn obeys_eq_spec() -> bool {
        R::obeys_eq_spec()
    }

    open spec fn eq_spec(&self, other: &Self) -> bool {
        self.raw.eq_spec(&other.raw)
    }
}

impl<
    R: Repr,
    const DOMAIN: usize,
    const MAX_INDEX: usize,
    const CHECKS_MAX_INDEX: bool,
> PartialOrd for IndexType<R, DOMAIN, MAX_INDEX, CHECKS_MAX_INDEX> {
    fn partial_cmp(&self, other: &Self) -> (r: Option<Ordering>) {
        self.raw.partial_cmp(&other.raw)
    }
}

impl<
    R: Repr,
    const DOMAIN: usize,
    const MAX_INDEX: usize,
    const CHECKS_MAX_INDEX: bool,
> PartialOrdSpecImpl for IndexType<R, DOMAIN, MAX_INDEX, CHECKS_MAX_INDEX> {
    open spec fn obeys_partial_cmp_spec() -> bool {
        R::obeys_partial_cmp_spec()
    }

    open spec fn partial_cmp_spec(&self, other: &Self) -> Option<Ordering> {
        self.raw.partial_cmp_spec(&other.raw)
    }
}

impl<
    R: Repr,
    const DOMAIN: usize,
    const MAX_INDEX: usize,
    const CHECKS_MAX_INDEX: bool,
> PartialEq<usize> for IndexType<R, DOMAIN, MAX_INDEX, CHECKS_MAX_INDEX> {
    fn eq(&self, other: &usize) -> (r: bool) {
        IndexType::index(*self) == *other
    }
}

impl<
    R: Repr,
    const DOMAIN: usize,
    const MAX_INDEX: usize,
    const CHECKS_MAX_INDEX: bool,
> PartialEqSpecImpl<usize> for IndexType<R, DOMAIN, MAX_INDEX, CHECKS_MAX_INDEX> {
    open spec fn obeys_eq_spec() -> bool {
        true
    }

    open spec fn eq_spec(&self, other: &usize) -> bool {
        self.index_spec() == *other
    }
}

impl<
    R: Repr,
    const DOMAIN: usize,
    const MAX_INDEX: usize,
    const CHECKS_MAX_INDEX: bool,
> PartialEq<IndexType<R, DOMAIN, MAX_INDEX, CHECKS_MAX_INDEX>> for usize {
    fn eq(&self, other: &IndexType<R, DOMAIN, MAX_INDEX, CHECKS_MAX_INDEX>) -> (r: bool) {
        *self == IndexType::index(*other)
    }
}

impl<
    R: Repr,
    const DOMAIN: usize,
    const MAX_INDEX: usize,
    const CHECKS_MAX_INDEX: bool,
> PartialEqSpecImpl<IndexType<R, DOMAIN, MAX_INDEX, CHECKS_MAX_INDEX>> for usize {
    open spec fn obeys_eq_spec() -> bool {
        true
    }

    open spec fn eq_spec(&self, other: &IndexType<R, DOMAIN, MAX_INDEX, CHECKS_MAX_INDEX>) -> bool {
        *self == other.index_spec()
    }
}

impl<
    R: Repr,
    const DOMAIN: usize,
    const MAX_INDEX: usize,
    const CHECKS_MAX_INDEX: bool,
> PartialOrd<usize> for IndexType<R, DOMAIN, MAX_INDEX, CHECKS_MAX_INDEX> {
    fn partial_cmp(&self, other: &usize) -> (r: Option<Ordering>) {
        IndexType::index(*self).partial_cmp(other)
    }
}

impl<
    R: Repr,
    const DOMAIN: usize,
    const MAX_INDEX: usize,
    const CHECKS_MAX_INDEX: bool,
> PartialOrdSpecImpl<usize> for IndexType<R, DOMAIN, MAX_INDEX, CHECKS_MAX_INDEX> {
    open spec fn obeys_partial_cmp_spec() -> bool {
        true
    }

    open spec fn partial_cmp_spec(&self, other: &usize) -> Option<Ordering> {
        if self.index_spec() < *other {
            Some(Ordering::Less)
        } else if self.index_spec() == *other {
            Some(Ordering::Equal)
        } else {
            Some(Ordering::Greater)
        }
    }
}

impl<
    R: Repr,
    const DOMAIN: usize,
    const MAX_INDEX: usize,
    const CHECKS_MAX_INDEX: bool,
> PartialOrd<IndexType<R, DOMAIN, MAX_INDEX, CHECKS_MAX_INDEX>> for usize {
    fn partial_cmp(&self, other: &IndexType<R, DOMAIN, MAX_INDEX, CHECKS_MAX_INDEX>) -> (r: Option<
        Ordering,
    >) {
        self.partial_cmp(&IndexType::index(*other))
    }
}

impl<
    R: Repr,
    const DOMAIN: usize,
    const MAX_INDEX: usize,
    const CHECKS_MAX_INDEX: bool,
> PartialOrdSpecImpl<IndexType<R, DOMAIN, MAX_INDEX, CHECKS_MAX_INDEX>> for usize {
    open spec fn obeys_partial_cmp_spec() -> bool {
        true
    }

    open spec fn partial_cmp_spec(
        &self,
        other: &IndexType<R, DOMAIN, MAX_INDEX, CHECKS_MAX_INDEX>,
    ) -> Option<Ordering> {
        if *self < other.index_spec() {
            Some(Ordering::Less)
        } else if *self == other.index_spec() {
            Some(Ordering::Equal)
        } else {
            Some(Ordering::Greater)
        }
    }
}

} // verus!
