//! The vector types, one for each number of components.
//!
//! The scalar type `T` of a vector decides what its operators do, so an
//! operation that computes with them is described in two ways.
//!
//! - For every scalar type, a function ending in `_returns` tells which
//!   results the operation may return. It speaks of what the operators of
//!   `T` ensure, as `call_ensures` does of a function. An operation that
//!   feeds what one operator returns into another has a function ending in
//!   `_requires`, which tells when it can be computed.
//! - For a scalar type whose operators return what their specifications say
//!   (for which `obeys_add_spec` and the like hold, as they do for the
//!   primitive integer types), a function ending in `_req` tells when the
//!   operation can be computed, and one ending in `_spec` what it returns.
//!
//! For scalar types that stand for integers the algebraic laws are proved
//! as `lemma_` functions of each vector type.

pub mod vector1;
pub mod vector2;
pub mod vector3;
pub mod vector4;

pub use vector1::Vector1;
pub use vector2::Vector2;
pub use vector3::Vector3;
pub use vector4::Vector4;
