//! Moving values out of an owned `Vec` or boxed slice by position, and the
//! code generator of the `match_vec` macro that rests on those moves.

pub mod slice_ext;
pub mod vec_ext;
pub mod util;
pub mod internal;
pub mod codegen;
pub mod generate_body;

use vstd::prelude::*;

verus! {

/// A value that cannot be copied, for examples and tests of moves out of a `Vec`.
#[derive(Debug, Clone, PartialEq, Eq, Structural)]
pub struct NonCopy(pub usize);

} // verus!
