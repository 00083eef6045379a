//! Ranges of plain positions, and the one place where a range is held
//! against a length.

use vstd::prelude::*;

verus! {

/// Where a range of positions ends.
#[derive(Clone, Copy, Debug, PartialEq, Eq, Structural)]
pub enum RangeEnd {
    /// Before this position.
    Excluded(usize),
    /// With this position.
    Included(usize),
    /// With the last element, wherever that is.
    Unbounded,
}

/// A range of plain positions: what every range of typed indices becomes
/// before it touches an array. It says nothing yet of any length.
#[derive(Clone, Copy, Debug, PartialEq, Eq, Structural)]
pub struct UsizeRange {
    pub start: usize,
    pub end: RangeEnd,
}

impl UsizeRange {
    /// The position one past the range's last, in an array of `len` elements.
    pub open spec fn upper(self, len: nat) -> int {
        match self.end {
            RangeEnd::Excluded(e) => e as int,
            RangeEnd::Included(e) => e + 1,
            RangeEnd::Unbounded => len as int,
        }
    }

    /// Whether the range lies within an array of `len` elements. An empty
    /// range fits wherever its start does.
    pub open spec fn fits(self, len: nat) -> bool {
        self.start <= self.upper(len) <= len
    }

    /// The elements of `s` that the range covers.
    pub open spec fn slice_of<T>(self, s: Seq<T>) -> Seq<T>
        recommends
            self.fits(s.len()),
    {
        s.subrange(self.start as int, self.upper(s.len()))
    }

    /// What is left of `s` once the elements that the range covers are gone.
    pub open spec fn rest_of<T>(self, s: Seq<T>) -> Seq<T>
        recommends
            self.fits(s.len()),
    {
        s.subrange(0, self.start as int) + s.subrange(self.upper(s.len()), s.len() as int)
    }

    /// Holds the range against a length: the half-open pair of positions
    /// that it covers, or nothing where it does not fit.
    pub fn resolve(self, len: usize) -> (r: Option<(usize, usize)>)
        ensures
            r.is_some() == self.fits(len as nat),
            r matches Some((lo, hi)) ==> lo == self.start && hi == self.upper(len as nat),
    {
        let hi: usize = match self.end {
            RangeEnd::Excluded(e) => e,
            RangeEnd::Included(e) => {
                if e >= len {
                    return None;
                }
                e + 1
            },
            RangeEnd::Unbounded => len,
        };
        if self.start <= hi && hi <= len {
            Some((self.start, hi))
        } else {
            None
        }
    }
}

} // verus!
