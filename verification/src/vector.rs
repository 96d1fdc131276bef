//! The operation set shared by the three vector types.
//!
//! A vector is described by its lanes: lane 0 is `x`, lane 1 is `y`,
//! lane 2 is `z` and lane 3 is `w`. A lane that a type does not have
//! reads as `+0.0`. Every operation is stated as the vector built from
//! four lane values, of which a type keeps as many as it has components.
use vstd::prelude::*;
use crate::arith::{product, sum};
use crate::matrix::Matrix;
use crate::rounding::{ceiled, floored, rounded, truncated};
use crate::scalar::{clamped, less, maximum, minimum, EPSILON, INFINITY, NAN, ONE, ZERO};

verus! {

/// Whether an index argument in position `i` is read by a vector of the
/// given arity: a type ignores the arguments past its last component.
pub open spec fn used(arity: nat, i: int) -> bool {
    0 <= i < arity
}

/// Column `col` of the row vector `(x, y, z, w)` times `matrix`, for a
/// vector of the given arity.
///
/// Rows 0 and 1 are weighted by `x` and `y`. Row 2 is weighted by `z`
/// from three components on; on two it does not contribute at all. On
/// four components row 3 is weighted by the vector's own `w`; below
/// four the vector is a point, and the translation row 3 is added
/// unscaled. The terms are summed in this order, each sum rounded.
pub open spec fn column(arity: nat, x: u32, y: u32, z: u32, w: u32, matrix: &Matrix, col: int) -> u32 {
    let xy = sum(product(x, matrix.entry(0, col)), product(y, matrix.entry(1, col)));
    let xyz = if arity > 2 {
        sum(xy, product(z, matrix.entry(2, col)))
    } else {
        xy
    };
    if arity > 3 {
        sum(xyz, product(w, matrix.entry(3, col)))
    } else {
        sum(xyz, matrix.entry(3, col))
    }
}

/// The operations that the vectors of every arity offer, each with the
/// contract that every arity meets.
pub trait Vector: Sized {
    /// Number of components: 2, 3 or 4.
    spec fn arity() -> nat;

    /// Component `i`; `+0.0` where the type has no such component.
    spec fn lane(&self, i: int) -> u32;

    /// The vector with the given components, dropping those past the arity.
    spec fn from_lanes(x: u32, y: u32, z: u32, w: u32) -> Self;

    /// What `lane` and `from_lanes` mean for every implementor.
    proof fn lemma_lanes(x: u32, y: u32, z: u32, w: u32)
        ensures
            2 <= Self::arity() <= 4,
            Self::from_lanes(x, y, z, w).lane(0) == x,
            Self::from_lanes(x, y, z, w).lane(1) == y,
            Self::from_lanes(x, y, z, w).lane(2) == (if Self::arity() > 2 { z } else { ZERO }),
            Self::from_lanes(x, y, z, w).lane(3) == (if Self::arity() > 3 { w } else { ZERO }),
    ;

    /// A vector is determined by its lanes, and has none past its arity.
    proof fn lemma_rebuild(&self)
        ensures
            Self::from_lanes(self.lane(0), self.lane(1), self.lane(2), self.lane(3)) == *self,
            forall|i: int| !(0 <= i < Self::arity()) ==> #[trigger] self.lane(i) == ZERO,
    ;

    /// Every component `+0.0`.
    fn zero() -> (r: Self)
        ensures
            r == Self::from_lanes(ZERO, ZERO, ZERO, ZERO),
    ;

    /// Every component `1.0`.
    fn one() -> (r: Self)
        ensures
            r == Self::from_lanes(ONE, ONE, ONE, ONE),
    ;

    /// Every component positive infinity.
    fn infinity() -> (r: Self)
        ensures
            r == Self::from_lanes(INFINITY, INFINITY, INFINITY, INFINITY),
    ;

    /// Every component the canonical quiet NaN.
    fn nan() -> (r: Self)
        ensures
            r == Self::from_lanes(NAN, NAN, NAN, NAN),
    ;

    /// Every component the machine epsilon.
    fn epsilon() -> (r: Self)
        ensures
            r == Self::from_lanes(EPSILON, EPSILON, EPSILON, EPSILON),
    ;

    /// Every component `value`.
    fn replicate(value: u32) -> (r: Self)
        ensures
            r == Self::from_lanes(value, value, value, value),
    ;

    /// Component `i` of the result is component `e_i` of `self`. The
    /// index arguments past the arity are ignored; the others must be
    /// below 4. With the indices in order the result is `self`.
    fn swizzle(&self, e0: usize, e1: usize, e2: usize, e3: usize) -> (r: Self)
        requires
            e0 < 4,
            e1 < 4,
            used(Self::arity(), 2) ==> e2 < 4,
            used(Self::arity(), 3) ==> e3 < 4,
        ensures
            r == Self::from_lanes(
                self.lane(e0 as int),
                self.lane(e1 as int),
                self.lane(e2 as int),
                self.lane(e3 as int),
            ),
            e0 == 0 && e1 == 1 && (used(Self::arity(), 2) ==> e2 == 2) && (used(Self::arity(), 3)
                ==> e3 == 3) ==> r == *self,
    ;

    /// Component `i` of the result is picked by `permute_i` from `self`
    /// (0 to 3) or from `other` (4 to 7). The index arguments past the
    /// arity are ignored; the others must be below 8. The indices
    /// 0, 1, 2, 3 give `self` and 4, 5, 6, 7 give `other`.
    fn permute(
        &self,
        other: &Self,
        permute_x: usize,
        permute_y: usize,
        permute_z: usize,
        permute_w: usize,
    ) -> (r: Self)
        requires
            permute_x < 8,
            permute_y < 8,
            used(Self::arity(), 2) ==> permute_z < 8,
            used(Self::arity(), 3) ==> permute_w < 8,
        ensures
            r == Self::from_lanes(
                if permute_x < 4 { self.lane(permute_x as int) } else { other.lane(permute_x - 4) },
                if permute_y < 4 { self.lane(permute_y as int) } else { other.lane(permute_y - 4) },
                if permute_z < 4 { self.lane(permute_z as int) } else { other.lane(permute_z - 4) },
                if permute_w < 4 { self.lane(permute_w as int) } else { other.lane(permute_w - 4) },
            ),
            permute_x == 0 && permute_y == 1 && (used(Self::arity(), 2) ==> permute_z == 2) && (used(
                Self::arity(),
                3,
            ) ==> permute_w == 3) ==> r == *self,
            permute_x == 4 && permute_y == 5 && (used(Self::arity(), 2) ==> permute_z == 6) && (used(
                Self::arity(),
                3,
            ) ==> permute_w == 7) ==> r == *other,
    ;

    /// The row vector `self` times `matrix`: component `i` of the result
    /// is column `i` of the product, as [`column`] defines it.
    fn transform(&self, matrix: &Matrix) -> (r: Self)
        ensures
            r == Self::from_lanes(
                column(Self::arity(), self.lane(0), self.lane(1), self.lane(2), self.lane(3), matrix, 0),
                column(Self::arity(), self.lane(0), self.lane(1), self.lane(2), self.lane(3), matrix, 1),
                column(Self::arity(), self.lane(0), self.lane(1), self.lane(2), self.lane(3), matrix, 2),
                column(Self::arity(), self.lane(0), self.lane(1), self.lane(2), self.lane(3), matrix, 3),
            ),
    ;

    /// Component-wise minimum, by the rule of `scalar::minimum`.
    fn min(&self, other: &Self) -> (r: Self)
        ensures
            r == Self::from_lanes(
                minimum(self.lane(0), other.lane(0)),
                minimum(self.lane(1), other.lane(1)),
                minimum(self.lane(2), other.lane(2)),
                minimum(self.lane(3), other.lane(3)),
            ),
    ;

    /// Component-wise maximum, by the rule of `scalar::maximum`.
    fn max(&self, other: &Self) -> (r: Self)
        ensures
            r == Self::from_lanes(
                maximum(self.lane(0), other.lane(0)),
                maximum(self.lane(1), other.lane(1)),
                maximum(self.lane(2), other.lane(2)),
                maximum(self.lane(3), other.lane(3)),
            ),
    ;

    /// Every component rounded to the nearest whole number, halfway cases
    /// away from zero.
    fn round(&self) -> (r: Self)
        ensures
            r == Self::from_lanes(
                rounded(self.lane(0)),
                rounded(self.lane(1)),
                rounded(self.lane(2)),
                rounded(self.lane(3)),
            ),
    ;

    /// Every component rounded toward zero.
    fn trunc(&self) -> (r: Self)
        ensures
            r == Self::from_lanes(
                truncated(self.lane(0)),
                truncated(self.lane(1)),
                truncated(self.lane(2)),
                truncated(self.lane(3)),
            ),
    ;

    /// Every component rounded toward negative infinity.
    fn floor(&self) -> (r: Self)
        ensures
            r == Self::from_lanes(
                floored(self.lane(0)),
                floored(self.lane(1)),
                floored(self.lane(2)),
                floored(self.lane(3)),
            ),
    ;

    /// Every component rounded toward positive infinity.
    fn ceil(&self) -> (r: Self)
        ensures
            r == Self::from_lanes(
                ceiled(self.lane(0)),
                ceiled(self.lane(1)),
                ceiled(self.lane(2)),
                ceiled(self.lane(3)),
            ),
    ;

    /// `self.max(min).min(max)`; every component of `min` must be
    /// strictly below that of `max`.
    fn clamp(&self, min: &Self, max: &Self) -> (r: Self)
        requires
            forall|i: int| 0 <= i < Self::arity() ==> less(#[trigger] min.lane(i), max.lane(i)),
        ensures
            r == Self::from_lanes(
                clamped(self.lane(0), min.lane(0), max.lane(0)),
                clamped(self.lane(1), min.lane(1), max.lane(1)),
                clamped(self.lane(2), min.lane(2), max.lane(2)),
                clamped(self.lane(3), min.lane(3), max.lane(3)),
            ),
    ;

    /// `self * mul + add` per component, the product rounded before the
    /// sum is taken.
    fn multiply_add(&self, mul: &Self, add: &Self) -> (r: Self)
        ensures
            r == Self::from_lanes(
                sum(product(self.lane(0), mul.lane(0)), add.lane(0)),
                sum(product(self.lane(1), mul.lane(1)), add.lane(1)),
                sum(product(self.lane(2), mul.lane(2)), add.lane(2)),
                sum(product(self.lane(3), mul.lane(3)), add.lane(3)),
            ),
    ;

    /// Every component the `x` of `self`.
    fn splat_x(&self) -> (r: Self)
        ensures
            r == Self::from_lanes(self.lane(0), self.lane(0), self.lane(0), self.lane(0)),
    ;

    /// Every component the `y` of `self`.
    fn splat_y(&self) -> (r: Self)
        ensures
            r == Self::from_lanes(self.lane(1), self.lane(1), self.lane(1), self.lane(1)),
    ;

    /// Every component the `z` of `self`, `+0.0` where it has none.
    fn splat_z(&self) -> (r: Self)
        ensures
            r == Self::from_lanes(self.lane(2), self.lane(2), self.lane(2), self.lane(2)),
            !used(Self::arity(), 2) ==> r == Self::from_lanes(ZERO, ZERO, ZERO, ZERO),
    ;

    /// Every component the `w` of `self`, `+0.0` where it has none.
    fn splat_w(&self) -> (r: Self)
        ensures
            r == Self::from_lanes(self.lane(3), self.lane(3), self.lane(3), self.lane(3)),
            !used(Self::arity(), 3) ==> r == Self::from_lanes(ZERO, ZERO, ZERO, ZERO),
    ;
}

/// What `swizzle` returns: component `i` is component `e_i` of `a`.
pub open spec fn swizzled<V: Vector>(a: V, e0: int, e1: int, e2: int, e3: int) -> V {
    V::from_lanes(a.lane(e0), a.lane(e1), a.lane(e2), a.lane(e3))
}

/// Lane `k` of the pair `(a, b)`: indices 0 to 3 select from `a`,
/// indices 4 to 7 select lanes 0 to 3 of `b`.
pub open spec fn pick<V: Vector>(a: V, b: V, k: int) -> u32 {
    if k < 4 {
        a.lane(k)
    } else {
        b.lane(k - 4)
    }
}

/// What `permute` returns: component `i` is picked by `k_i` from the
/// pair `(a, b)`.
pub open spec fn permuted<V: Vector>(a: V, b: V, k0: int, k1: int, k2: int, k3: int) -> V {
    V::from_lanes(pick(a, b, k0), pick(a, b, k1), pick(a, b, k2), pick(a, b, k3))
}

/// Every component of `lo` is strictly below that of `hi`: what `clamp`
/// asks of its bounds.
pub open spec fn strictly_below<V: Vector>(lo: V, hi: V) -> bool {
    forall|i: int| 0 <= i < V::arity() ==> less(#[trigger] lo.lane(i), hi.lane(i))
}

/// What `clamp` returns: every component of `a` bounded from below by
/// `lo`, then from above by `hi`.
pub open spec fn clamp_of<V: Vector>(a: V, lo: V, hi: V) -> V {
    V::from_lanes(
        clamped(a.lane(0), lo.lane(0), hi.lane(0)),
        clamped(a.lane(1), lo.lane(1), hi.lane(1)),
        clamped(a.lane(2), lo.lane(2), hi.lane(2)),
        clamped(a.lane(3), lo.lane(3), hi.lane(3)),
    )
}

} // verus!
