//! Arithmetic on an index and a plain offset, and the conversions out of an
//! index.
//!
//! Each operation works on the position as a `usize`, wrapping there, and
//! then makes an index of the outcome through the checked constructor. So it
//! is the index type's policy, not the width of `usize`, that decides
//! whether an outcome is acceptable.

use vstd::prelude::*;
use vstd::std_specs::convert::FromSpecImpl;
use vstd::std_specs::ops::{AddSpecImpl, RemSpecImpl, SubSpecImpl};
use crate::idx::Idx;
use crate::index_type::IndexType;
use crate::repr::Repr;

verus! {

impl<
    R: Repr,
    const DOMAIN: usize,
    const MAX_INDEX: usize,
    const CHECKS_MAX_INDEX: bool,
> core::ops::Add<usize> for IndexType<R, DOMAIN, MAX_INDEX, CHECKS_MAX_INDEX> {
    type Output = Self;

    fn add(self, other: usize) -> (r: Self) {
        Self::new(IndexType::index(self).wrapping_add(other))
    }
}

impl<
    R: Repr,
    const DOMAIN: usize,
    const MAX_INDEX: usize,
    const CHECKS_MAX_INDEX: bool,
> AddSpecImpl<usize> for IndexType<R, DOMAIN, MAX_INDEX, CHECKS_MAX_INDEX> {
    open spec fn obeys_add_spec() -> bool {
        true
    }

    open spec fn add_req(self, other: usize) -> bool {
        Self::admits(self.index_spec().wrapping_add(other))
    }

    open spec fn add_spec(self, other: usize) -> Self {
        Self::from_usize_spec(self.index_spec().wrapping_add(other))
    }
}

impl<
    R: Repr,
    const DOMAIN: usize,
    const MAX_INDEX: usize,
    const CHECKS_MAX_INDEX: bool,
> core::ops::Sub<usize> for IndexType<R, DOMAIN, MAX_INDEX, CHECKS_MAX_INDEX> {
    type Output = Self;

    fn sub(self, other: usize) -> (r: Self) {
        Self::new(IndexType::index(self).wrapping_sub(other))
    }
}

impl<
    R: Repr,
    const DOMAIN: usize,
    const MAX_INDEX: usize,
    const CHECKS_MAX_INDEX: bool,
> SubSpecImpl<usize> for IndexType<R, DOMAIN, MAX_INDEX, CHECKS_MAX_INDEX> {
    open spec fn obeys_sub_spec() -> bool {
        true
    }

    open spec fn sub_req(self, other: usize) -> bool {
        Self::admits(self.index_spec().wrapping_sub(other))
    }

    open spec fn sub_spec(self, other: usize) -> Self {
        Self::from_usize_spec(self.index_spec().wrapping_sub(other))
    }
}

impl<
    R: Repr,
    const DOMAIN: usize,
    const MAX_INDEX: usize,
    const CHECKS_MAX_INDEX: bool,
> core::ops::Rem<usize> for IndexType<R, DOMAIN, MAX_INDEX, CHECKS_MAX_INDEX> {
    type Output = Self;

    fn rem(self, other: usize) -> (r: Self) {
        Self::new(IndexType::index(self) % other)
    }
}

impl<
    R: Repr,
    const DOMAIN: usize,
    const MAX_INDEX: usize,
    const CHECKS_MAX_INDEX: bool,
> RemSpecImpl<usize> for IndexType<R, DOMAIN, MAX_INDEX, CHECKS_MAX_INDEX> {
    open spec fn obeys_rem_spec() -> bool {
        true
    }

    open spec fn rem_req(self, other: usize) -> bool {
        other != 0 && Self::admits((self.index_spec() % other) as usize)
    }

    open spec fn rem_spec(self, other: usize) -> Self {
        Self::from_usize_spec((self.index_spec() % other) as usize)
    }
}

impl<
    R: Repr,
    const DOMAIN: usize,
    const MAX_INDEX: usize,
    const CHECKS_MAX_INDEX: bool,
> core::ops::AddAssign<usize> for IndexType<R, DOMAIN, MAX_INDEX, CHECKS_MAX_INDEX> {
    fn add_assign(&mut self, other: usize)
        requires
            Self::admits(old(self).index_spec().wrapping_add(other)),
        ensures
            *final(self) == Self::from_usize_spec(old(self).index_spec().wrapping_add(other)),
    {
        *self = *self + other
    }
}

impl<
    R: Repr,
    const DOMAIN: usize,
    const MAX_INDEX: usize,
    const CHECKS_MAX_INDEX: bool,
> core::ops::SubAssign<usize> for IndexType<R, DOMAIN, MAX_INDEX, CHECKS_MAX_INDEX> {
    fn sub_assign(&mut self, other: usize)
        requires
            Self::admits(old(self).index_spec().wrapping_sub(other)),
        ensures
            *final(self) == Self::from_usize_spec(old(self).index_spec().wrapping_sub(other)),
    {
        *self = *self - other
    }
}

impl<
    R: Repr,
    const DOMAIN: usize,
    const MAX_INDEX: usize,
    const CHECKS_MAX_INDEX: bool,
> core::ops::Add<IndexType<R, DOMAIN, MAX_INDEX, CHECKS_MAX_INDEX>> for usize {
    type Output = IndexType<R, DOMAIN, MAX_INDEX, CHECKS_MAX_INDEX>;

    fn add(self, other: IndexType<R, DOMAIN, MAX_INDEX, CHECKS_MAX_INDEX>) -> (r: IndexType<R, DOMAIN, MAX_INDEX, CHECKS_MAX_INDEX>) {
        other + self
    }
}

impl<
    R: Repr,
    const DOMAIN: usize,
    const MAX_INDEX: usize,
    const CHECKS_MAX_INDEX: bool,
> AddSpecImpl<IndexType<R, DOMAIN, MAX_INDEX, CHECKS_MAX_INDEX>> for usize {
    open spec fn obeys_add_spec() -> bool {
        true
    }

    open spec fn add_req(self, other: IndexType<R, DOMAIN, MAX_INDEX, CHECKS_MAX_INDEX>) -> bool {
        IndexType::<R, DOMAIN, MAX_INDEX, CHECKS_MAX_INDEX>::admits(other.index_spec().wrapping_add(self))
    }

    open spec fn add_spec(self, other: IndexType<R, DOMAIN, MAX_INDEX, CHECKS_MAX_INDEX>) -> IndexType<R, DOMAIN, MAX_INDEX, CHECKS_MAX_INDEX> {
        IndexType::<R, DOMAIN, MAX_INDEX, CHECKS_MAX_INDEX>::from_usize_spec(other.index_spec().wrapping_add(self))
    }
}

impl<
    R: Repr,
    const DOMAIN: usize,
    const MAX_INDEX: usize,
    const CHECKS_MAX_INDEX: bool,
> core::ops::Sub<IndexType<R, DOMAIN, MAX_INDEX, CHECKS_MAX_INDEX>> for usize {
    type Output = IndexType<R, DOMAIN, MAX_INDEX, CHECKS_MAX_INDEX>;

    fn sub(self, other: IndexType<R, DOMAIN, MAX_INDEX, CHECKS_MAX_INDEX>) -> (r: IndexType<R, DOMAIN, MAX_INDEX, CHECKS_MAX_INDEX>) {
        IndexType::new(self.wrapping_sub(IndexType::index(other)))
    }
}

impl<
    R: Repr,
    const DOMAIN: usize,
    const MAX_INDEX: usize,
    const CHECKS_MAX_INDEX: bool,
> SubSpecImpl<IndexType<R, DOMAIN, MAX_INDEX, CHECKS_MAX_INDEX>> for usize {
    open spec fn obeys_sub_spec() -> bool {
        true
    }

    open spec fn sub_req(self, other: IndexType<R, DOMAIN, MAX_INDEX, CHECKS_MAX_INDEX>) -> bool {
        IndexType::<R, DOMAIN, MAX_INDEX, CHECKS_MAX_INDEX>::admits(self.wrapping_sub(other.index_spec()))
    }

    open spec fn sub_spec(self, other: IndexType<R, DOMAIN, MAX_INDEX, CHECKS_MAX_INDEX>) -> IndexType<R, DOMAIN, MAX_INDEX, CHECKS_MAX_INDEX> {
        IndexType::<R, DOMAIN, MAX_INDEX, CHECKS_MAX_INDEX>::from_usize_spec(self.wrapping_sub(other.index_spec()))
    }
}

impl<
    R: Repr,
    const DOMAIN: usize,
    const MAX_INDEX: usize,
    const CHECKS_MAX_INDEX: bool,
> From<IndexType<R, DOMAIN, MAX_INDEX, CHECKS_MAX_INDEX>> for usize {
    fn from(v: IndexType<R, DOMAIN, MAX_INDEX, CHECKS_MAX_INDEX>) -> (r: usize) {
        IndexType::index(v)
    }
}

impl<
    R: Repr,
    const DOMAIN: usize,
    const MAX_INDEX: usize,
    const CHECKS_MAX_INDEX: bool,
> FromSpecImpl<IndexType<R, DOMAIN, MAX_INDEX, CHECKS_MAX_INDEX>> for usize {
    open spec fn obeys_from_spec() -> bool {
        true
    }

    open spec fn from_spec(v: IndexType<R, DOMAIN, MAX_INDEX, CHECKS_MAX_INDEX>) -> usize {
        v.index_spec()
    }
}

impl<const DOMAIN: usize, const MAX_INDEX: usize, const CHECKS_MAX_INDEX: bool> From<
    IndexType<u8, DOMAIN, MAX_INDEX, CHECKS_MAX_INDEX>,
> for u8 {
    fn from(v: IndexType<u8, DOMAIN, MAX_INDEX, CHECKS_MAX_INDEX>) -> (r: u8) {
        v.raw()
    }
}

impl<const DOMAIN: usize, const MAX_INDEX: usize, const CHECKS_MAX_INDEX: bool> FromSpecImpl<
    IndexType<u8, DOMAIN, MAX_INDEX, CHECKS_MAX_INDEX>,
> for u8 {
    open spec fn obeys_from_spec() -> bool {
        true
    }

    open spec fn from_spec(v: IndexType<u8, DOMAIN, MAX_INDEX, CHECKS_MAX_INDEX>) -> u8 {
        v.raw
    }
}

impl<const DOMAIN: usize, const MAX_INDEX: usize, const CHECKS_MAX_INDEX: bool> From<
    IndexType<u16, DOMAIN, MAX_INDEX, CHECKS_MAX_INDEX>,
> for u16 {
    fn from(v: IndexType<u16, DOMAIN, MAX_INDEX, CHECKS_MAX_INDEX>) -> (r: u16) {
        v.raw()
    }
}

impl<const DOMAIN: usize, const MAX_INDEX: usize, const CHECKS_MAX_INDEX: bool> FromSpecImpl<
    IndexType<u16, DOMAIN, MAX_INDEX, CHECKS_MAX_INDEX>,
> for u16 {
    open spec fn obeys_from_spec() -> bool {
        true
    }

    open spec fn from_spec(v: IndexType<u16, DOMAIN, MAX_INDEX, CHECKS_MAX_INDEX>) -> u16 {
        v.raw
    }
}

impl<const DOMAIN: usize, const MAX_INDEX: usize, const CHECKS_MAX_INDEX: bool> From<
    IndexType<u32, DOMAIN, MAX_INDEX, CHECKS_MAX_INDEX>,
> for u32 {
    fn from(v: IndexType<u32, DOMAIN, MAX_INDEX, CHECKS_MAX_INDEX>) -> (r: u32) {
        v.raw()
    }
}

impl<const DOMAIN: usize, const MAX_INDEX: usize, const CHECKS_MAX_INDEX: bool> FromSpecImpl<
    IndexType<u32, DOMAIN, MAX_INDEX, CHECKS_MAX_INDEX>,
> for u32 {
    open spec fn obeys_from_spec() -> bool {
        true
    }

    open spec fn from_spec(v: IndexType<u32, DOMAIN, MAX_INDEX, CHECKS_MAX_INDEX>) -> u32 {
        v.raw
    }
}

impl<const DOMAIN: usize, const MAX_INDEX: usize, const CHECKS_MAX_INDEX: bool> From<
    IndexType<u64, DOMAIN, MAX_INDEX, CHECKS_MAX_INDEX>,
> for u64 {
    fn from(v: IndexType<u64, DOMAIN, MAX_INDEX, CHECKS_MAX_INDEX>) -> (r: u64) {
        v.raw()
    }
}

impl<const DOMAIN: usize, const MAX_INDEX: usize, const CHECKS_MAX_INDEX: bool> FromSpecImpl<
    IndexType<u64, DOMAIN, MAX_INDEX, CHECKS_MAX_INDEX>,
> for u64 {
    open spec fn obeys_from_spec() -> bool {
        true
    }

    open spec fn from_spec(v: IndexType<u64, DOMAIN, MAX_INDEX, CHECKS_MAX_INDEX>) -> u64 {
        v.raw
    }
}

} // verus!
