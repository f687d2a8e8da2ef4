//! The extension traits, for a glob import: `use slice_of_array::prelude::*;`.
//!
//! Holds nothing that a caller would want to name.
pub use crate::ext::SliceArrayExt;
pub use crate::ext::SliceFlatExt;
pub use crate::ext::SliceNestExt;
