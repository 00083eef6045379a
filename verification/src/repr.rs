//! The primitive unsigned integers that an index type can wrap.

use vstd::prelude::*;
use core::fmt::Debug;
use core::hash::Hash;

verus! {

/// A primitive unsigned integer in which an index type stores its position.
///
/// The two conversions are the `as` casts between the representation and
/// `usize`: widening never fails, narrowing keeps the low bits.
pub trait Repr: Copy + 'static + Ord + Debug + Hash {
    /// The stored value as a position: the cast `self as usize`.
    spec fn as_usize_spec(self) -> usize;

    /// The position cut down to the representation: the cast `n as Self`.
    spec fn truncate_spec(n: usize) -> Self;

    /// The largest position that the representation holds exactly.
    spec fn max_spec() -> usize;

    fn as_usize(self) -> (r: usize)
        ensures
            r == self.as_usize_spec(),
    ;

    fn truncate(n: usize) -> (r: Self)
        ensures
            r == Self::truncate_spec(n),
    ;

    /// A position up to `max_spec()` survives narrowing and widening unchanged.
    proof fn lemma_truncate_exact(n: usize)
        requires
            n <= Self::max_spec(),
        ensures
            Self::truncate_spec(n).as_usize_spec() == n,
    ;

    /// Narrowing never makes a position larger.
    proof fn lemma_truncate_bounded(n: usize)
        ensures
            Self::truncate_spec(n).as_usize_spec() <= n,
    ;
}

impl Repr for u8 {
    open spec fn as_usize_spec(self) -> usize {
        self as usize
    }

    open spec fn truncate_spec(n: usize) -> u8 {
        n as u8
    }

    open spec fn max_spec() -> usize {
        0xff
    }

    fn as_usize(self) -> (r: usize) {
        self as usize
    }

    fn truncate(n: usize) -> (r: u8) {
        #[verifier::truncate]
        (n as u8)
    }

    proof fn lemma_truncate_exact(n: usize) {
    }

    proof fn lemma_truncate_bounded(n: usize) {
    }
}

impl Repr for u16 {
    open spec fn as_usize_spec(self) -> usize {
        self as usize
    }

    open spec fn truncate_spec(n: usize) -> u16 {
        n as u16
    }

    open spec fn max_spec() -> usize {
        0xffff
    }

    fn as_usize(self) -> (r: usize) {
        self as usize
    }

    fn truncate(n: usize) -> (r: u16) {
        #[verifier::truncate]
        (n as u16)
    }

    proof fn lemma_truncate_exact(n: usize) {
    }

    proof fn lemma_truncate_bounded(n: usize) {
    }
}

impl Repr for u32 {
    open spec fn as_usize_spec(self) -> usize {
        self as usize
    }

    open spec fn truncate_spec(n: usize) -> u32 {
        n as u32
    }

    open spec fn max_spec() -> usize {
        0xffff_ffff
    }

    fn as_usize(self) -> (r: usize) {
        self as usize
    }

    fn truncate(n: usize) -> (r: u32) {
        #[verifier::truncate]
        (n as u32)
    }

    proof fn lemma_truncate_exact(n: usize) {
    }

    proof fn lemma_truncate_bounded(n: usize) {
    }
}

impl Repr for u64 {
    /// Where `usize` has 32 bits this cast keeps the low half only.
    open spec fn as_usize_spec(self) -> usize {
        self as usize
    }

    open spec fn truncate_spec(n: usize) -> u64 {
        n as u64
    }

    /// Every `usize` fits in a `u64`, so the bound is that of `usize`.
    open spec fn max_spec() -> usize {
        usize::MAX
    }

    fn as_usize(self) -> (r: usize) {
        #[verifier::truncate]
        (self as usize)
    }

    fn truncate(n: usize) -> (r: u64) {
        n as u64
    }

    proof fn lemma_truncate_exact(n: usize) {
    }

    proof fn lemma_truncate_bounded(n: usize) {
    }
}

impl Repr for usize {
    open spec fn as_usize_spec(self) -> usize {
        self
    }

    open spec fn truncate_spec(n: usize) -> usize {
        n
    }

    open spec fn max_spec() -> usize {
        usize::MAX
    }

    fn as_usize(self) -> (r: usize) {
        self
    }

    fn truncate(n: usize) -> (r: usize) {
        n
    }

    proof fn lemma_truncate_exact(n: usize) {
    }

    proof fn lemma_truncate_bounded(n: usize) {
    }
}

} // verus!
