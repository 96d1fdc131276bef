//! Rounding a binary32 encoding to a whole number.
//!
//! The magnitudes of the encodings between two powers of two are evenly
//! spaced numbers, so the whole numbers among them are the multiples of
//! a power of two, the grain. The four rounding functions are stated by
//! that arithmetic, and the lemmas show what it means: the nearest whole
//! numbers on either side.
use vstd::prelude::*;
use vstd::arithmetic::div_mod::{lemma_fundamental_div_mod, lemma_mod_multiples_basic};
use vstd::arithmetic::power2::{lemma2_to64, lemma_pow2_adds, lemma_pow2_pos, pow2};
use vstd::bits::lemma_u32_shl_is_mul;
use crate::scalar::{is_negative, magnitude, rank, INFINITY, ONE, SIGN_BIT};

verus! {

/// Number of encodings that share one exponent: `2^23`.
pub const SPAN: u32 = 0x0080_0000;

/// Encoding of `0.5`.
pub const HALF: u32 = 0x3f00_0000;

/// Encoding of `2^23`, from which on every number is whole.
pub const WHOLE_FROM: u32 = 0x4b00_0000;

/// Distance, in encodings, between neighbouring whole numbers around the
/// magnitude `m >= ONE`: `2^(150 - e)` at the biased exponent `e < 150`,
/// and 1 from there on.
pub open spec fn grain(m: int) -> int {
    if m >= WHOLE_FROM {
        1
    } else {
        pow2((150 - m / (SPAN as int)) as nat) as int
    }
}

/// The magnitude `m` denotes a whole number: zero, or a number of
/// absolute value at least 1 whose fraction bits below the binary point
/// are all clear.
pub open spec fn whole(m: int) -> bool {
    m == 0 || (m >= ONE && m % grain(m) == 0)
}

/// The encoding is finite and denotes a whole number.
pub open spec fn is_whole(a: u32) -> bool {
    magnitude(a) < INFINITY && whole(magnitude(a) as int)
}

/// The greatest whole magnitude not above `m`.
pub open spec fn below(m: int) -> int {
    if m < ONE {
        0
    } else {
        m - m % grain(m)
    }
}

/// The least whole magnitude not below `m`.
pub open spec fn above(m: int) -> int {
    if m == 0 {
        0
    } else if m < ONE {
        ONE as int
    } else if m % grain(m) == 0 {
        m
    } else {
        m - m % grain(m) + grain(m)
    }
}

/// The whole magnitude nearest to `m`, the greater one when `m` lies
/// halfway.
pub open spec fn nearest(m: int) -> int {
    if m < ONE {
        if m >= HALF {
            ONE as int
        } else {
            0
        }
    } else if 2 * (m % grain(m)) >= grain(m) {
        above(m)
    } else {
        below(m)
    }
}

/// The magnitude `m` under the sign of `a`.
pub open spec fn signed(a: u32, m: int) -> u32 {
    if is_negative(a) {
        (m + SIGN_BIT) as u32
    } else {
        m as u32
    }
}

/// `a` rounded toward zero. Infinities and NaNs are their own result,
/// and the sign is kept, also where the result is zero.
pub open spec fn truncated(a: u32) -> u32 {
    signed(a, below(magnitude(a) as int))
}

/// `a` rounded toward negative infinity.
pub open spec fn floored(a: u32) -> u32 {
    if is_negative(a) {
        signed(a, above(magnitude(a) as int))
    } else {
        signed(a, below(magnitude(a) as int))
    }
}

/// `a` rounded toward positive infinity.
pub open spec fn ceiled(a: u32) -> u32 {
    if is_negative(a) {
        signed(a, below(magnitude(a) as int))
    } else {
        signed(a, above(magnitude(a) as int))
    }
}

/// `a` rounded to the nearest whole number, halfway cases away from zero.
pub open spec fn rounded(a: u32) -> u32 {
    signed(a, nearest(magnitude(a) as int))
}

/// Below `WHOLE_FROM` the grain is a power of two between 2 and `SPAN`
/// that divides `SPAN`, hence also the first magnitude of its exponent.
pub proof fn lemma_grain(m: int)
    requires
        ONE <= m < WHOLE_FROM,
    ensures
        2 <= grain(m) <= SPAN,
        exists|h: int| 1 <= h && #[trigger] (grain(m) * h) == SPAN,
        (m / (SPAN as int) * SPAN) % grain(m) == 0,
{
    let e = m / (SPAN as int);
    let k = (150 - e) as nat;
    let j = (23 - k) as nat;
    lemma2_to64();
    lemma_pow2_adds(k, j);
    lemma_pow2_adds(1, (k - 1) as nat);
    lemma_pow2_pos(k);
    lemma_pow2_pos(j);
    lemma_pow2_pos((k - 1) as nat);
    let g = grain(m);
    let h = pow2(j) as int;
    assert(g * h == SPAN);
    assert(g <= SPAN) by (nonlinear_arith)
        requires
            g * h == SPAN,
            h >= 1,
            g >= 1,
    ;
    assert(e * SPAN == g * (e * h)) by (nonlinear_arith)
        requires
            g * h == SPAN,
    ;
    lemma_mod_multiples_basic(e * h, g);
    assert((e * h) * g == g * (e * h)) by (nonlinear_arith);
}

/// Two multiples of `g` that are less than `g` apart are equal.
proof fn lemma_multiples_apart(g: int, p: int, q: int)
    requires
        g > 0,
        p % g == 0,
        q % g == 0,
        p <= q < p + g,
    ensures
        p == q,
{
    lemma_fundamental_div_mod(p, g);
    lemma_fundamental_div_mod(q, g);
    let a = p / g;
    let b = q / g;
    assert(a == b) by (nonlinear_arith)
        requires
            g > 0,
            p == g * a,
            q == g * b,
            p <= q < p + g,
    ;
}

/// `below(m)` is whole, not above `m`, in the exponent of `m`, and no
/// whole magnitude lies between it and `m`.
pub proof fn lemma_below(m: int, t: int)
    requires
        0 <= m <= 0x7fff_ffff,
        0 <= t <= m,
        whole(t),
    ensures
        whole(below(m)),
        t <= below(m) <= m,
        m >= ONE ==> below(m) >= ONE && below(m) % grain(m) == 0 && grain(below(m)) == grain(m),
{
    if m >= ONE {
        let g = grain(m);
        let d = below(m);
        let e = m / (SPAN as int);
        if m < WHOLE_FROM {
            lemma_grain(m);
            lemma_fundamental_div_mod(m, g);
            lemma_mod_multiples_basic(m / g, g);
            assert(g * (m / g) == (m / g) * g) by (nonlinear_arith);
            assert(d % g == 0);
            let base = e * SPAN;
            assert(base <= d) by {
                if d < base {
                    // d < base <= m < d + g, both multiples of g
                    lemma_multiples_apart(g, d, base);
                }
            }
            assert(d / (SPAN as int) == e);
            assert(grain(d) == g);
            if t > d {
                assert(t / (SPAN as int) == e);
                assert(grain(t) == g);
                lemma_multiples_apart(g, d, t);
            }
        } else {
            assert(d == m);
        }
    }
}

/// `above(m)` is whole, not below `m`, and no whole magnitude lies
/// between `m` and it.
pub proof fn lemma_above(m: int, t: int)
    requires
        0 <= m <= 0x7fff_ffff,
        m <= t,
        whole(t),
    ensures
        whole(above(m)),
        m <= above(m) <= t,
{
    if m >= ONE {
        let g = grain(m);
        let u = above(m);
        let e = m / (SPAN as int);
        if m < WHOLE_FROM && m % g != 0 {
            lemma_grain(m);
            lemma_below(m, 0);
            let d = below(m);
            let next = (e + 1) * SPAN;
            assert(d % g == 0);
            assert(u == d + g);
            lemma_fundamental_div_mod(d, g);
            lemma_mod_multiples_basic(d / g + 1, g);
            assert((d / g + 1) * g == d + g) by (nonlinear_arith)
                requires
                    d == g * (d / g),
            ;
            assert(u % g == 0);
            assert(next % g == 0) by {
                let h = choose|h: int| 1 <= h && #[trigger] (g * h) == SPAN;
                lemma_mod_multiples_basic((e + 1) * h, g);
                assert((e + 1) * h * g == next) by (nonlinear_arith)
                    requires
                        g * h == SPAN,
                        next == (e + 1) * SPAN,
                ;
            }
            assert(u <= next) by {
                if u > next {
                    // d < m < next < u == d + g
                    lemma_multiples_apart(g, next, u);
                }
            }
            if u < next {
                assert(u / (SPAN as int) == e);
                assert(grain(u) == g);
            } else {
                // the next power of two, where the grain halves
                if e + 1 < 150 {
                    lemma_grain(u);
                    assert(u / (SPAN as int) == e + 1);
                }
            }
            assert(whole(u));
            if t < u {
                if t < next {
                    assert(t / (SPAN as int) == e);
                    assert(grain(t) == g);
                    if t > d {
                        lemma_multiples_apart(g, d, t);
                    }
                }
            }
        }
    } else if m > 0 {
        lemma_grain(ONE as int);
        assert(t >= ONE);
    }
}

/// Infinities and NaNs are their own rounding, in every direction.
pub proof fn lemma_not_finite_unchanged(a: u32)
    requires
        magnitude(a) >= INFINITY,
    ensures
        truncated(a) == a,
        floored(a) == a,
        ceiled(a) == a,
        rounded(a) == a,
{
}

/// Truncation of a finite number keeps its sign and gives the whole
/// number of greatest magnitude that is not above its magnitude.
pub proof fn lemma_truncated(a: u32)
    requires
        magnitude(a) < INFINITY,
    ensures
        is_whole(truncated(a)),
        is_negative(truncated(a)) == is_negative(a),
        magnitude(truncated(a)) <= magnitude(a),
        forall|t: u32| #[trigger]
            is_whole(t) && magnitude(t) <= magnitude(a) ==> magnitude(t) <= magnitude(truncated(a)),
{
    let m = magnitude(a) as int;
    lemma_below(m, 0);
    assert forall|t: u32| #[trigger]
        is_whole(t) && magnitude(t) <= magnitude(a) implies magnitude(t) <= magnitude(
        truncated(a),
    ) by {
        lemma_below(m, magnitude(t) as int);
    }
}

/// The floor of a finite number keeps its sign and is the greatest whole
/// number not above it.
pub proof fn lemma_floored(a: u32)
    requires
        magnitude(a) < INFINITY,
    ensures
        is_whole(floored(a)),
        is_negative(floored(a)) == is_negative(a),
        rank(floored(a)) <= rank(a),
        forall|t: u32| #[trigger] is_whole(t) && rank(t) <= rank(a) ==> rank(t) <= rank(floored(a)),
{
    let m = magnitude(a) as int;
    lemma_below(m, 0);
    lemma_above(m, if m <= WHOLE_FROM { WHOLE_FROM as int } else { m });
    assert forall|t: u32| #[trigger] is_whole(t) && rank(t) <= rank(a) implies rank(t) <= rank(
        floored(a),
    ) by {
        let n = magnitude(t) as int;
        if is_negative(a) {
            lemma_above(m, n);
        } else if !is_negative(t) {
            lemma_below(m, n);
        }
    }
}

/// The ceiling of a finite number keeps its sign and is the least whole
/// number not below it.
pub proof fn lemma_ceiled(a: u32)
    requires
        magnitude(a) < INFINITY,
    ensures
        is_whole(ceiled(a)),
        is_negative(ceiled(a)) == is_negative(a),
        rank(ceiled(a)) >= rank(a),
        forall|t: u32| #[trigger] is_whole(t) && rank(t) >= rank(a) ==> rank(t) >= rank(ceiled(a)),
{
    let m = magnitude(a) as int;
    lemma_below(m, 0);
    lemma_above(m, if m <= WHOLE_FROM { WHOLE_FROM as int } else { m });
    assert forall|t: u32| #[trigger] is_whole(t) && rank(t) >= rank(a) implies rank(t) >= rank(
        ceiled(a),
    ) by {
        let n = magnitude(t) as int;
        if !is_negative(a) {
            lemma_above(m, n);
        } else if is_negative(t) {
            lemma_below(m, n);
        }
    }
}

/// Rounding a finite number gives one of its two whole neighbours, under
/// its own sign: the truncation, or the next whole number away from zero.
pub proof fn lemma_rounded(a: u32)
    requires
        magnitude(a) < INFINITY,
    ensures
        is_whole(rounded(a)),
        is_negative(rounded(a)) == is_negative(a),
        rounded(a) == truncated(a) || rounded(a) == signed(a, above(magnitude(a) as int)),
        is_whole(a) ==> rounded(a) == a,
{
    let m = magnitude(a) as int;
    lemma_below(m, 0);
    lemma_above(m, if m <= WHOLE_FROM { WHOLE_FROM as int } else { m });
    if m >= ONE && m < WHOLE_FROM {
        lemma_grain(m);
    }
    if m < ONE {
        lemma_grain(ONE as int);
    }
}

/// The grain around a magnitude of absolute value at least 1.
fn grain_of(m: u32) -> (g: u32)
    requires
        ONE <= m <= 0x7fff_ffff,
    ensures
        g == grain(m as int),
        1 <= g <= SPAN,
{
    if m >= WHOLE_FROM {
        1
    } else {
        let k: u32 = 150 - m / SPAN;
        proof {
            lemma_grain(m as int);
            lemma_u32_shl_is_mul(1, k);
        }
        1u32 << k
    }
}

/// Splits an encoding into its sign bit and its magnitude.
fn split(a: u32) -> (p: (u32, u32))
    ensures
        p.0 == (if is_negative(a) { SIGN_BIT } else { 0 }),
        p.1 == magnitude(a),
        p.0 + p.1 == a,
{
    if a >= SIGN_BIT {
        (SIGN_BIT, a - SIGN_BIT)
    } else {
        (0, a)
    }
}

/// The greatest whole magnitude not above `m`.
fn whole_below(m: u32) -> (r: u32)
    requires
        m <= 0x7fff_ffff,
    ensures
        r == below(m as int),
        r <= m,
{
    if m < ONE {
        0
    } else {
        let g = grain_of(m);
        m - m % g
    }
}

/// The least whole magnitude not below `m`.
fn whole_above(m: u32) -> (r: u32)
    requires
        m <= 0x7fff_ffff,
    ensures
        r == above(m as int),
        m <= r <= 0x7fff_ffff,
{
    if m == 0 {
        0
    } else if m < ONE {
        ONE
    } else {
        let g = grain_of(m);
        let rest = m % g;
        if rest == 0 {
            m
        } else {
            proof {
                lemma_above(m as int, WHOLE_FROM as int);
            }
            m - rest + g
        }
    }
}

/// Rounds toward zero.
pub fn trunc(a: u32) -> (r: u32)
    ensures
        r == truncated(a),
{
    let (sign, m) = split(a);
    sign + whole_below(m)
}

/// Rounds toward negative infinity.
pub fn floor(a: u32) -> (r: u32)
    ensures
        r == floored(a),
{
    let (sign, m) = split(a);
    if sign != 0 {
        sign + whole_above(m)
    } else {
        whole_below(m)
    }
}

/// Rounds toward positive infinity.
pub fn ceil(a: u32) -> (r: u32)
    ensures
        r == ceiled(a),
{
    let (sign, m) = split(a);
    if sign != 0 {
        sign + whole_below(m)
    } else {
        whole_above(m)
    }
}

/// Rounds to the nearest whole number, halfway cases away from zero.
pub fn round(a: u32) -> (r: u32)
    ensures
        r == rounded(a),
{
    let (sign, m) = split(a);
    let up = if m < ONE {
        m >= HALF
    } else {
        let g = grain_of(m);
        m % g >= g - m % g
    };
    if up {
        sign + whole_above(m)
    } else {
        sign + whole_below(m)
    }
}

} // verus!
