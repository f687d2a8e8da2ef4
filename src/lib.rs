//! Views of a slice as a slice of fixed-size groups, and back, without copying.
//!
//! A run of `n * k` elements and a run of `n` groups of `k` elements are the
//! same data seen two ways. The extension traits here move between the two
//! views, for shared and for exclusive borrows, and take one group out of a
//! run of exactly `k` elements. Each conversion states in its contract how the
//! elements of one view sit in the other, so that writes through one view are
//! known to show in the other.
pub mod decimal;
pub mod ext;
pub mod layout;
pub mod prelude;
pub mod sliceomorphic;
pub mod validate;

pub use crate::ext::{SliceArrayExt, SliceFlatExt, SliceNestExt};
pub use crate::sliceomorphic::IsSliceomorphic;
pub use crate::validate::{
    validate_alignment_and_size, validate_as_array_assumptions, validate_nest_assumptions,
    ShapeError,
};
