//! Index types that keep the positions of different arrays apart, and a
//! growable array that is addressed by one such type only.
//!
//! An index type wraps one unsigned integer and belongs to one domain. The
//! compiler refuses an index of one domain where another is expected, so an
//! index into a list of nodes cannot reach into a list of edges. Making an
//! index of a position goes through the type's overflow policy; using it
//! goes through the array's own bounds, always.
//!
//! No function here panics. Where indexing would fail, a contract rules the
//! call out; the functions named `get` answer `None` instead, and
//! `Idx::is_admitted` tells whether an index can be made of a position.

use vstd::prelude::*;

pub mod idx;
pub mod idxslice;
pub mod index_cmp;
pub mod index_ops;
pub mod index_type;
pub mod index_vec;
pub mod index_vec_bulk;
pub mod index_vec_eq;
pub mod index_vec_ranges;
pub mod index_vec_traits;
pub mod indexing;
pub mod laws;
mod private_range_bounds;
mod private_slice_index;
pub mod range_bounds;
pub mod repr;
pub mod std_ranges;
pub mod usize_range;

pub use idx::Idx;
pub use idxslice::{IdxSlice, IdxSliceMut};
pub use index_type::IndexType;
pub use index_vec::IndexVec;
pub use indexing::IdxSliceIndex;
pub use range_bounds::IdxRangeBounds;
pub use repr::Repr;
pub use usize_range::{RangeEnd, UsizeRange};
