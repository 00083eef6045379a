//! The index type itself: one primitive unsigned integer, a domain that keeps
//! it apart from other index types, and an overflow policy.

use vstd::prelude::*;
use crate::idx::Idx;
use crate::repr::Repr;

verus! {

/// An index into the arrays of one domain.
///
/// `R` is the representation. `DOMAIN` tells index domains apart: two index
/// types with different domains never mix. `MAX_INDEX` is the largest
/// position that the checked constructors accept, and `CHECKS_MAX_INDEX`
/// says whether they check at all.
#[derive(Copy, Debug, Eq, Ord, Hash)]
pub struct IndexType<
    R: Repr,
    const DOMAIN: usize,
    const MAX_INDEX: usize,
    const CHECKS_MAX_INDEX: bool,
> {
    pub raw: R,
}

impl<
    R: Repr,
    const DOMAIN: usize,
    const MAX_INDEX: usize,
    const CHECKS_MAX_INDEX: bool,
> Clone for IndexType<R, DOMAIN, MAX_INDEX, CHECKS_MAX_INDEX> {
    fn clone(&self) -> (r: Self)
        ensures
            r == *self,
    {
        *self
    }
}

impl<
    R: Repr,
    const DOMAIN: usize,
    const MAX_INDEX: usize,
    const CHECKS_MAX_INDEX: bool,
> Idx for IndexType<R, DOMAIN, MAX_INDEX, CHECKS_MAX_INDEX> {
    open spec fn index_spec(self) -> usize {
        self.raw.as_usize_spec()
    }

    /// The position is cut down to the representation's width.
    open spec fn from_usize_spec(idx: usize) -> Self {
        IndexType { raw: R::truncate_spec(idx) }
    }

    open spec fn admits(idx: usize) -> bool {
        CHECKS_MAX_INDEX ==> idx <= MAX_INDEX
    }

    fn is_admitted(idx: usize) -> (ok: bool) {
        Self::maybe_check_index(idx)
    }

    fn from_usize(idx: usize) -> (r: Self) {
        IndexType::from_usize(idx)
    }

    fn index(self) -> (r: usize) {
        IndexType::index(self)
    }
}

impl<
    R: Repr,
    const DOMAIN: usize,
    const MAX_INDEX: usize,
    const CHECKS_MAX_INDEX: bool,
> IndexType<R, DOMAIN, MAX_INDEX, CHECKS_MAX_INDEX> {
    /// The largest position that the checked constructors accept.
    pub fn max_index() -> (r: usize)
        ensures
            r == MAX_INDEX,
    {
        MAX_INDEX
    }

    /// Whether the checked constructors hold positions to `MAX_INDEX`.
    pub fn checks_max_index() -> (r: bool)
        ensures
            r == CHECKS_MAX_INDEX,
    {
        CHECKS_MAX_INDEX
    }

    /// The policy gate: whether the checked constructors accept `v`. Without
    /// checking every position passes; with it, those up to `MAX_INDEX`.
    pub fn maybe_check_index(v: usize) -> (ok: bool)
        ensures
            ok == Self::admits(v),
            CHECKS_MAX_INDEX && v > MAX_INDEX ==> !ok,
            !CHECKS_MAX_INDEX ==> ok,
    {
        !(CHECKS_MAX_INDEX && v > MAX_INDEX)
    }

    /// The index of a position. The same as `from_usize`.
    pub fn new(value: usize) -> (r: Self)
        requires
            Self::admits(value),
        ensures
            r == Self::from_usize_spec(value),
            r.raw == R::truncate_spec(value),
            CHECKS_MAX_INDEX ==> r.index_spec() <= MAX_INDEX,
    {
        Self::from_usize(value)
    }

    /// The index of a value of the representation. The value is widened and
    /// goes through the same gate as a position does.
    pub fn from_raw(value: R) -> (r: Self)
        requires
            Self::admits(value.as_usize_spec()),
        ensures
            r == Self::from_usize_spec(value.as_usize_spec()),
            CHECKS_MAX_INDEX ==> r.index_spec() <= MAX_INDEX,
    {
        Self::from_usize(value.as_usize())
    }

    /// The index that stands for the position of an index of another domain.
    pub fn from_foreign<F: Idx>(value: F) -> (r: Self)
        requires
            Self::admits(value.index_spec()),
        ensures
            r == Self::from_usize_spec(value.index_spec()),
            CHECKS_MAX_INDEX ==> r.index_spec() <= MAX_INDEX,
    {
        Self::from_usize(value.index())
    }

    /// The index of a position, whatever the policy: the position is cut
    /// down to the representation's width and not looked at.
    pub fn from_usize_unchecked(value: usize) -> (r: Self)
        ensures
            r == Self::from_usize_spec(value),
    {
        IndexType { raw: R::truncate(value) }
    }

    /// The index that stores `raw` as it is, whatever the policy.
    pub fn from_raw_unchecked(raw: R) -> (r: Self)
        ensures
            r.raw == raw,
    {
        IndexType { raw }
    }

    /// The index of a position that the policy admits.
    pub fn from_usize(value: usize) -> (r: Self)
        requires
            Self::admits(value),
        ensures
            r == Self::from_usize_spec(value),
            r.raw == R::truncate_spec(value),
            CHECKS_MAX_INDEX ==> r.index_spec() <= MAX_INDEX,
    {
        proof {
            if CHECKS_MAX_INDEX {
                Self::lemma_checked_within_max(value);
            }
        }
        IndexType { raw: R::truncate(value) }
    }

    /// The position.
    pub fn index(self) -> (r: usize)
        ensures
            r == self.index_spec(),
            r == self.raw.as_usize_spec(),
    {
        self.raw.as_usize()
    }

    /// The stored value.
    pub fn raw(self) -> (r: R)
        ensures
            r == self.raw,
    {
        self.raw
    }

    /// With checking, a position is admitted exactly where it is within
    /// `MAX_INDEX`, so that no checked constructor can be called beyond it;
    /// without checking, every position is admitted.
    pub proof fn lemma_admits(n: usize)
        ensures
            CHECKS_MAX_INDEX ==> (Self::admits(n) <==> n <= MAX_INDEX),
            !CHECKS_MAX_INDEX ==> Self::admits(n),
    {
    }

    /// Position 0 is admitted by every policy and held exactly by every
    /// representation.
    pub proof fn lemma_zero()
        ensures
            Self::admits(0),
            Self::from_usize_spec(0).index_spec() == 0,
    {
        R::lemma_truncate_bounded(0);
    }

    /// With checking, the index made of a position that the policy admits
    /// stands for a position within `MAX_INDEX`. This holds of the outcome
    /// of every checked constructor and of every arithmetic operation.
    pub proof fn lemma_checked_within_max(v: usize)
        requires
            CHECKS_MAX_INDEX,
            Self::admits(v),
        ensures
            Self::from_usize_spec(v).index_spec() <= MAX_INDEX,
    {
        R::lemma_truncate_bounded(v);
    }

    /// A position within `MAX_INDEX` that the representation holds exactly is
    /// admitted, and the index made of it gives it back.
    pub proof fn lemma_from_usize_index(n: usize)
        requires
            n <= MAX_INDEX,
            n <= R::max_spec(),
        ensures
            Self::admits(n),
            Self::from_usize_spec(n).index_spec() == n,
    {
        R::lemma_truncate_exact(n);
    }
}

} // verus!
