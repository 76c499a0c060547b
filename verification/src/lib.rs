//! Identifies which known variant of a binary file a given copy is, by
//! streaming a digest over the file while masking a small variant-specific
//! mutable region, and rewrites that region to a chosen value.

pub mod args;
pub mod digits;
pub mod error_code;
pub mod hash;
pub mod laws;
pub mod patch;
pub mod ratio;
pub mod resolution;
pub mod settings;
