//! The capability that every index type has: to be made from a position and
//! to give its position back.

use vstd::prelude::*;
use core::fmt::Debug;
use core::hash::Hash;

verus! {

/// A value that stands for a position in one index domain.
///
/// `from_usize` is where an index type applies its overflow policy: it may
/// only be called on a position that the type admits, and `is_admitted`
/// tells which those are. `index` is total.
pub trait Idx: Copy + 'static + Ord + Debug + Hash {
    /// The position that the index stands for.
    spec fn index_spec(self) -> usize;

    /// The index that `from_usize` makes of a position it admits.
    spec fn from_usize_spec(idx: usize) -> Self;

    /// Whether the overflow policy lets `from_usize` construct this position.
    spec fn admits(idx: usize) -> bool;

    /// Whether `from_usize` may be called on this position.
    fn is_admitted(idx: usize) -> (ok: bool)
        ensures
            ok == Self::admits(idx),
    ;

    fn from_usize(idx: usize) -> (r: Self)
        requires
            Self::admits(idx),
        ensures
            r == Self::from_usize_spec(idx),
    ;

    fn index(self) -> (r: usize)
        ensures
            r == self.index_spec(),
    ;
}

/// Whether the index type holds the position `n` exactly, so that the index
/// made of `n` gives `n` back.
pub open spec fn holds_exactly<I: Idx>(n: usize) -> bool {
    I::from_usize_spec(n).index_spec() == n
}

} // verus!
