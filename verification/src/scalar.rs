//! Scalars of the vector types: IEEE-754 binary32 numbers, held as their
//! 32-bit encodings (sign bit, eight exponent bits, 23 fraction bits).
//!
//! Everything here is integer reasoning over encodings: classification,
//! the numeric order, negation and the minimum / maximum rule.
use vstd::prelude::*;

verus! {

/// Encoding of `+0.0`.
pub const ZERO: u32 = 0x0000_0000;

/// Encoding of `1.0`.
pub const ONE: u32 = 0x3f80_0000;

/// Encoding of positive infinity.
pub const INFINITY: u32 = 0x7f80_0000;

/// Encoding of the canonical quiet NaN.
pub const NAN: u32 = 0x7fc0_0000;

/// Encoding of the machine epsilon, `2^-23`.
pub const EPSILON: u32 = 0x3400_0000;

/// The sign bit of an encoding.
pub const SIGN_BIT: u32 = 0x8000_0000;

/// The encoding with its sign bit cleared.
pub open spec fn magnitude(a: u32) -> u32 {
    if a >= SIGN_BIT {
        (a - SIGN_BIT) as u32
    } else {
        a
    }
}

/// The sign bit is set (true of `-0.0` and of negative NaNs too).
pub open spec fn is_negative(a: u32) -> bool {
    a >= SIGN_BIT
}

/// The encoding is a NaN: all exponent bits set and a non-zero fraction.
pub open spec fn is_nan(a: u32) -> bool {
    magnitude(a) > INFINITY
}

/// The encoding is `+0.0` or `-0.0`.
pub open spec fn is_zero(a: u32) -> bool {
    magnitude(a) == 0
}

/// Position of a non-NaN encoding on the number line. Two encodings that
/// are not NaN denote numbers in the same order as their ranks; `+0.0`
/// and `-0.0` share rank 0.
pub open spec fn rank(a: u32) -> int {
    if is_negative(a) {
        -(magnitude(a) as int)
    } else {
        magnitude(a) as int
    }
}

/// The IEEE-754 `<` on encodings: false whenever either side is NaN.
pub open spec fn less(a: u32, b: u32) -> bool {
    !is_nan(a) && !is_nan(b) && rank(a) < rank(b)
}

/// The IEEE-754 `==` on encodings: false whenever either side is NaN,
/// true of `+0.0` against `-0.0`.
pub open spec fn equal(a: u32, b: u32) -> bool {
    !is_nan(a) && !is_nan(b) && rank(a) == rank(b)
}

/// The encoding with its sign bit flipped.
pub open spec fn negated(a: u32) -> u32 {
    if a >= SIGN_BIT {
        (a - SIGN_BIT) as u32
    } else {
        (a + SIGN_BIT) as u32
    }
}

/// Minimum rule of this library: a NaN operand is ignored (the other
/// operand is the result, so the result is NaN only when both are);
/// otherwise the strictly lesser operand wins and `a` is kept on a tie,
/// which only `+0.0` against `-0.0` and equal encodings produce.
pub open spec fn minimum(a: u32, b: u32) -> u32 {
    if is_nan(a) {
        b
    } else if less(b, a) {
        b
    } else {
        a
    }
}

/// Maximum rule of this library, the mirror image of [`minimum`].
pub open spec fn maximum(a: u32, b: u32) -> u32 {
    if is_nan(a) {
        b
    } else if less(a, b) {
        b
    } else {
        a
    }
}

/// Whether the encoding is a NaN.
pub fn nan(a: u32) -> (r: bool)
    ensures
        r == is_nan(a),
{
    let m: u32 = if a >= SIGN_BIT { a - SIGN_BIT } else { a };
    m > INFINITY
}

/// The IEEE-754 `<` on two encodings.
pub fn lt(a: u32, b: u32) -> (r: bool)
    ensures
        r == less(a, b),
{
    if nan(a) || nan(b) {
        return false;
    }
    if a >= SIGN_BIT {
        if b >= SIGN_BIT {
            // both negative: the larger magnitude is the lesser number
            a > b
        } else {
            a - SIGN_BIT > 0 || b > 0
        }
    } else {
        if b >= SIGN_BIT {
            false
        } else {
            a < b
        }
    }
}

/// The IEEE-754 `==` on two encodings.
pub fn eq(a: u32, b: u32) -> (r: bool)
    ensures
        r == equal(a, b),
{
    if nan(a) || nan(b) {
        return false;
    }
    let ma: u32 = if a >= SIGN_BIT { a - SIGN_BIT } else { a };
    let mb: u32 = if b >= SIGN_BIT { b - SIGN_BIT } else { b };
    a == b || (ma == 0 && mb == 0)
}

/// Flips the sign bit; exact for every encoding, NaNs included.
pub fn neg(a: u32) -> (r: u32)
    ensures
        r == negated(a),
{
    if a >= SIGN_BIT {
        a - SIGN_BIT
    } else {
        a + SIGN_BIT
    }
}

/// The lesser of two encodings under the rule of [`minimum`].
pub fn min(a: u32, b: u32) -> (r: u32)
    ensures
        r == minimum(a, b),
{
    if nan(a) || lt(b, a) {
        b
    } else {
        a
    }
}

/// The greater of two encodings under the rule of [`maximum`].
pub fn max(a: u32, b: u32) -> (r: u32)
    ensures
        r == maximum(a, b),
{
    if nan(a) || lt(a, b) {
        b
    } else {
        a
    }
}

/// `minimum` and `maximum` return one of their operands, and a NaN only
/// when both operands are NaN.
pub proof fn lemma_min_max_select(a: u32, b: u32)
    ensures
        minimum(a, b) == a || minimum(a, b) == b,
        maximum(a, b) == a || maximum(a, b) == b,
        is_nan(minimum(a, b)) <==> is_nan(a) && is_nan(b),
        is_nan(maximum(a, b)) <==> is_nan(a) && is_nan(b),
        !is_nan(a) && !is_nan(b) ==> rank(minimum(a, b)) <= rank(a) && rank(minimum(a, b)) <= rank(b),
        !is_nan(a) && !is_nan(b) ==> rank(maximum(a, b)) >= rank(a) && rank(maximum(a, b)) >= rank(b),
{
}

/// Bounding from below and then from above, as `clamp` does per component.
pub open spec fn clamped(a: u32, lo: u32, hi: u32) -> u32 {
    minimum(maximum(a, lo), hi)
}

/// With `lo < hi`, clamping lands in `[lo, hi]` and is idempotent.
pub proof fn lemma_clamped(a: u32, lo: u32, hi: u32)
    requires
        less(lo, hi),
    ensures
        !is_nan(clamped(a, lo, hi)),
        rank(lo) <= rank(clamped(a, lo, hi)) <= rank(hi),
        clamped(clamped(a, lo, hi), lo, hi) == clamped(a, lo, hi),
        is_nan(a) ==> clamped(a, lo, hi) == lo,
{
}

} // verus!
