//! Laws that hold of every vector type, proved from the contracts of the
//! `Vector` operations.
use vstd::prelude::*;
use vstd::std_specs::ops::{AddSpec, MulSpec};
use crate::arith::{product, sum};
use crate::scalar::{is_nan, lemma_clamped, rank, ZERO};
use crate::vector::{clamp_of, permuted, strictly_below, swizzled, Vector};
use crate::vector2::Vector2;
use crate::vector3::Vector3;
use crate::vector4::Vector4;

verus! {

/// Swizzling with the indices 0, 1, 2, 3 returns the vector unchanged.
pub proof fn law_swizzle_identity<V: Vector>(a: V)
    ensures
        swizzled(a, 0, 1, 2, 3) == a,
{
    a.lemma_rebuild();
}

/// Permuting with the indices 0, 1, 2, 3 returns the first vector.
pub proof fn law_permute_first<V: Vector>(a: V, b: V)
    ensures
        permuted(a, b, 0, 1, 2, 3) == a,
{
    a.lemma_rebuild();
}

/// Permuting with the indices 4, 5, 6, 7 returns the second vector.
pub proof fn law_permute_second<V: Vector>(a: V, b: V)
    ensures
        permuted(a, b, 4, 5, 6, 7) == b,
{
    b.lemma_rebuild();
}

/// With every index below 4, permuting reads the first vector only and
/// is the swizzle by the same indices.
pub proof fn law_permute_is_swizzle<V: Vector>(a: V, b: V, k0: int, k1: int, k2: int, k3: int)
    requires
        k0 < 4,
        k1 < 4,
        k2 < 4,
        k3 < 4,
    ensures
        permuted(a, b, k0, k1, k2, k3) == swizzled(a, k0, k1, k2, k3),
{
}

/// Clamping is idempotent: a clamped vector is its own clamping by the
/// same bounds.
pub proof fn law_clamp_idempotent<V: Vector>(a: V, lo: V, hi: V)
    requires
        strictly_below(lo, hi),
    ensures
        clamp_of(clamp_of(a, lo, hi), lo, hi) == clamp_of(a, lo, hi),
{
    let c = clamp_of(a, lo, hi);
    V::lemma_lanes(
        crate::scalar::clamped(a.lane(0), lo.lane(0), hi.lane(0)),
        crate::scalar::clamped(a.lane(1), lo.lane(1), hi.lane(1)),
        crate::scalar::clamped(a.lane(2), lo.lane(2), hi.lane(2)),
        crate::scalar::clamped(a.lane(3), lo.lane(3), hi.lane(3)),
    );
    a.lemma_rebuild();
    lemma_clamped(a.lane(0), lo.lane(0), hi.lane(0));
    lemma_clamped(a.lane(1), lo.lane(1), hi.lane(1));
    if V::arity() > 2 {
        lemma_clamped(a.lane(2), lo.lane(2), hi.lane(2));
    }
    if V::arity() > 3 {
        lemma_clamped(a.lane(3), lo.lane(3), hi.lane(3));
    }
}

/// Every component of a clamped vector is a number between its bounds,
/// the bounds included; a NaN component is replaced by the lower bound.
pub proof fn law_clamp_within<V: Vector>(a: V, lo: V, hi: V, i: int)
    requires
        strictly_below(lo, hi),
        0 <= i < V::arity(),
    ensures
        !is_nan(clamp_of(a, lo, hi).lane(i)),
        rank(lo.lane(i)) <= rank(clamp_of(a, lo, hi).lane(i)) <= rank(hi.lane(i)),
        is_nan(a.lane(i)) ==> clamp_of(a, lo, hi).lane(i) == lo.lane(i),
{
    V::lemma_lanes(
        crate::scalar::clamped(a.lane(0), lo.lane(0), hi.lane(0)),
        crate::scalar::clamped(a.lane(1), lo.lane(1), hi.lane(1)),
        crate::scalar::clamped(a.lane(2), lo.lane(2), hi.lane(2)),
        crate::scalar::clamped(a.lane(3), lo.lane(3), hi.lane(3)),
    );
    lemma_clamped(a.lane(i), lo.lane(i), hi.lane(i));
}

/// Broadcasting a component that the type does not have gives the zero
/// vector: `splat_w` below four components, `splat_z` below three.
pub proof fn law_splat_absent<V: Vector>(a: V, i: int)
    requires
        V::arity() <= i < 4,
    ensures
        V::from_lanes(a.lane(i), a.lane(i), a.lane(i), a.lane(i)) == V::from_lanes(
            ZERO,
            ZERO,
            ZERO,
            ZERO,
        ),
{
    a.lemma_rebuild();
}

/// On two components, `multiply_add` is the product followed by the sum.
pub proof fn law_multiply_add_2(a: Vector2, m: Vector2, c: Vector2)
    ensures
        Vector2::from_lanes(
            sum(product(a.lane(0), m.lane(0)), c.lane(0)),
            sum(product(a.lane(1), m.lane(1)), c.lane(1)),
            sum(product(a.lane(2), m.lane(2)), c.lane(2)),
            sum(product(a.lane(3), m.lane(3)), c.lane(3)),
        ) == a.mul_spec(m).add_spec(c),
{
}

/// On three components, `multiply_add` is the product followed by the sum.
pub proof fn law_multiply_add_3(a: Vector3, m: Vector3, c: Vector3)
    ensures
        Vector3::from_lanes(
            sum(product(a.lane(0), m.lane(0)), c.lane(0)),
            sum(product(a.lane(1), m.lane(1)), c.lane(1)),
            sum(product(a.lane(2), m.lane(2)), c.lane(2)),
            sum(product(a.lane(3), m.lane(3)), c.lane(3)),
        ) == a.mul_spec(m).add_spec(c),
{
}

/// On four components, `multiply_add` is the product followed by the sum.
pub proof fn law_multiply_add_4(a: Vector4, m: Vector4, c: Vector4)
    ensures
        Vector4::from_lanes(
            sum(product(a.lane(0), m.lane(0)), c.lane(0)),
            sum(product(a.lane(1), m.lane(1)), c.lane(1)),
            sum(product(a.lane(2), m.lane(2)), c.lane(2)),
            sum(product(a.lane(3), m.lane(3)), c.lane(3)),
        ) == a.mul_spec(m).add_spec(c),
{
}

} // verus!
