//! Correctly rounded binary32 arithmetic on encodings.
//!
//! The four operations are computed by the `rustc_apfloat` crate, an
//! integer-only implementation of IEEE-754 arithmetic. Their results are
//! not restated here: each has a name, and the vector operations say
//! which operands are combined, in which order.
use vstd::prelude::*;
use rustc_apfloat::ieee::Single;
use rustc_apfloat::Float;

verus! {

/// `a + b`, rounded to nearest with ties to even.
pub uninterp spec fn sum(a: u32, b: u32) -> u32;

/// `a - b`, rounded to nearest with ties to even.
pub uninterp spec fn difference(a: u32, b: u32) -> u32;

/// `a * b`, rounded to nearest with ties to even.
pub uninterp spec fn product(a: u32, b: u32) -> u32;

/// `a / b`, rounded to nearest with ties to even.
pub uninterp spec fn quotient(a: u32, b: u32) -> u32;

/// Calls `Add::add` of `rustc_apfloat::ieee::Single` (that is `add_r`
/// with `Round::NearestTiesToEven`) on the two encodings. The contract
/// claims only that the encoding returned depends on the operands alone.
#[verifier::external_body]
pub(crate) fn add(a: u32, b: u32) -> (r: u32)
    ensures
        r == sum(a, b),
{
    (Single::from_bits(a as u128) + Single::from_bits(b as u128)).value.to_bits() as u32
}

/// Calls `Sub::sub` of `rustc_apfloat::ieee::Single` (that is `sub_r`
/// with `Round::NearestTiesToEven`) on the two encodings. The contract
/// claims only that the encoding returned depends on the operands alone.
#[verifier::external_body]
pub(crate) fn sub(a: u32, b: u32) -> (r: u32)
    ensures
        r == difference(a, b),
{
    (Single::from_bits(a as u128) - Single::from_bits(b as u128)).value.to_bits() as u32
}

/// Calls `Mul::mul` of `rustc_apfloat::ieee::Single` (that is `mul_r`
/// with `Round::NearestTiesToEven`) on the two encodings. The contract
/// claims only that the encoding returned depends on the operands alone.
#[verifier::external_body]
pub(crate) fn mul(a: u32, b: u32) -> (r: u32)
    ensures
        r == product(a, b),
{
    (Single::from_bits(a as u128) * Single::from_bits(b as u128)).value.to_bits() as u32
}

/// Calls `Div::div` of `rustc_apfloat::ieee::Single` (that is `div_r`
/// with `Round::NearestTiesToEven`) on the two encodings. Division by
/// zero yields an infinity or a NaN there, never a panic. The contract
/// claims only that the encoding returned depends on the operands alone.
#[verifier::external_body]
pub(crate) fn div(a: u32, b: u32) -> (r: u32)
    ensures
        r == quotient(a, b),
{
    (Single::from_bits(a as u128) / Single::from_bits(b as u128)).value.to_bits() as u32
}

} // verus!
