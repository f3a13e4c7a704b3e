//! Helpers for arrays whose slots are filled one at a time.

pub mod uninit;

pub use uninit::UninitArray;
