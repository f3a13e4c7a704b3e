//! The code generator of the `match_vec` macro.

pub mod args;
pub mod entry;
pub mod laws;
pub mod shape_laws;
pub mod text;
pub mod to_tokens;
