//! Vectors of one to four components over a generic scalar type.
//!
//! The vector types live in [`vector`]. What they ask of a scalar type is
//! in [`scalar`]: the operators of `core::ops`, and the traits `Zero`,
//! `One`, `Signed` and `Algebraic`, which this crate implements for the
//! primitive integer types.

pub mod scalar;
pub mod vector;
