//! Moving a constant number of items out of an owned slice.

pub mod box_ext;
pub mod interface;
pub mod vec_ext;

pub use interface::SliceExt;
pub use interface::take_uninit;
pub use interface::uninit_array;
