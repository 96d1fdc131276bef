//! Fixed-size vectors of two, three and four IEEE-754 binary32 components.
//!
//! A component is held as the 32-bit encoding of its number, so that
//! every operation is integer code with an exact contract. Selection
//! (indexing, swizzling, permuting, broadcasting), comparison, minimum,
//! maximum, clamping, negation and rounding to whole numbers are defined
//! and proved here; sums, differences, products and quotients are
//! computed by an integer-only implementation of IEEE-754 arithmetic.
pub mod arith;
pub mod laws;
pub mod matrix;
pub mod rounding;
pub mod scalar;
pub mod vector;
pub mod vector2;
pub mod vector3;
pub mod vector4;

pub use crate::matrix::Matrix;
pub use crate::vector::Vector;
pub use crate::vector2::Vector2;
pub use crate::vector3::Vector3;
pub use crate::vector4::Vector4;
