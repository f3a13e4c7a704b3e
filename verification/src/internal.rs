//! The paths that generated code names.

pub use crate::slice_ext::SliceExt;
pub use crate::vec_ext::VecExt;
