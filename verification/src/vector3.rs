//! Vectors of three components.
use vstd::prelude::*;
use vstd::std_specs::cmp::PartialEqSpecImpl;
use vstd::std_specs::ops::{AddSpecImpl, DivSpecImpl, MulSpecImpl, NegSpecImpl, SubSpecImpl};
use std::ops::{Add, Div, Index, Mul, Neg, Sub};
use crate::arith::{difference, product, quotient, sum};
use crate::matrix::Matrix;
use crate::scalar::{equal, negated, EPSILON, INFINITY, NAN, ONE, ZERO};
use crate::vector::{column, Vector};

verus! {

/// Three binary32 components, each held as its encoding.
#[derive(Clone, Copy, Debug)]
pub struct Vector3 {
    pub x: u32,
    pub y: u32,
    pub z: u32,
}

impl Vector3 {
    /// Reads component `index`; index 3 reads as `+0.0`.
    fn get(&self, index: usize) -> (r: u32)
        requires
            index < 4,
        ensures
            r == self.lane(index as int),
    {
        if index == 0 {
            self.x
        } else if index == 1 {
            self.y
        } else if index == 2 {
            self.z
        } else {
            ZERO
        }
    }

    /// Computes one column of the row vector times `matrix`.
    fn dot(&self, matrix: &Matrix, col: usize) -> (r: u32)
        requires
            col < 4,
        ensures
            r == column(
                3,
                self.lane(0),
                self.lane(1),
                self.lane(2),
                self.lane(3),
                matrix,
                col as int,
            ),
    {
        let r = crate::arith::mul(self.x, matrix.at(0, col));
        let r = crate::arith::add(r, crate::arith::mul(self.y, matrix.at(1, col)));
        let r = crate::arith::add(r, crate::arith::mul(self.z, matrix.at(2, col)));
        crate::arith::add(r, matrix.at(3, col))
    }
}

impl Vector for Vector3 {
    open spec fn arity() -> nat {
        3
    }

    open spec fn lane(&self, i: int) -> u32 {
        if i == 0 {
            self.x
        } else if i == 1 {
            self.y
        } else if i == 2 {
            self.z
        } else {
            ZERO
        }
    }

    open spec fn from_lanes(x: u32, y: u32, z: u32, w: u32) -> Self {
        Vector3 { x, y, z }
    }

    proof fn lemma_lanes(x: u32, y: u32, z: u32, w: u32) {
    }

    proof fn lemma_rebuild(&self) {
    }

    fn zero() -> (r: Self) {
        Vector3 {
            x: ZERO,
            y: ZERO,
            z: ZERO,
        }
    }

    fn one() -> (r: Self) {
        Vector3 {
            x: ONE,
            y: ONE,
            z: ONE,
        }
    }

    fn infinity() -> (r: Self) {
        Vector3 {
            x: INFINITY,
            y: INFINITY,
            z: INFINITY,
        }
    }

    fn nan() -> (r: Self) {
        Vector3 {
            x: NAN,
            y: NAN,
            z: NAN,
        }
    }

    fn epsilon() -> (r: Self) {
        Vector3 {
            x: EPSILON,
            y: EPSILON,
            z: EPSILON,
        }
    }

    fn replicate(value: u32) -> (r: Self) {
        Vector3 {
            x: value,
            y: value,
            z: value,
        }
    }

    fn swizzle(&self, e0: usize, e1: usize, e2: usize, _e3: usize) -> (r: Self) {
        Vector3 {
            x: self.get(e0),
            y: self.get(e1),
            z: self.get(e2),
        }
    }

    fn permute(
        &self,
        other: &Self,
        permute_x: usize,
        permute_y: usize,
        permute_z: usize,
        _permute_w: usize,
    ) -> (r: Self) {
        Vector3 {
            x: if permute_x < 4 {
                self.get(permute_x)
            } else {
                other.get(permute_x - 4)
            },
            y: if permute_y < 4 {
                self.get(permute_y)
            } else {
                other.get(permute_y - 4)
            },
            z: if permute_z < 4 {
                self.get(permute_z)
            } else {
                other.get(permute_z - 4)
            },
        }
    }

    fn transform(&self, matrix: &Matrix) -> (r: Self) {
        let x = self.dot(matrix, 0);
        let y = self.dot(matrix, 1);
        let z = self.dot(matrix, 2);
        Vector3 { x, y, z }
    }

    fn min(&self, other: &Self) -> (r: Self) {
        let x = crate::scalar::min(self.x, other.x);
        let y = crate::scalar::min(self.y, other.y);
        let z = crate::scalar::min(self.z, other.z);
        Vector3 { x, y, z }
    }

    fn max(&self, other: &Self) -> (r: Self) {
        let x = crate::scalar::max(self.x, other.x);
        let y = crate::scalar::max(self.y, other.y);
        let z = crate::scalar::max(self.z, other.z);
        Vector3 { x, y, z }
    }

    fn round(&self) -> (r: Self) {
        let x = crate::rounding::round(self.x);
        let y = crate::rounding::round(self.y);
        let z = crate::rounding::round(self.z);
        Vector3 { x, y, z }
    }

    fn trunc(&self) -> (r: Self) {
        let x = crate::rounding::trunc(self.x);
        let y = crate::rounding::trunc(self.y);
        let z = crate::rounding::trunc(self.z);
        Vector3 { x, y, z }
    }

    fn floor(&self) -> (r: Self) {
        let x = crate::rounding::floor(self.x);
        let y = crate::rounding::floor(self.y);
        let z = crate::rounding::floor(self.z);
        Vector3 { x, y, z }
    }

    fn ceil(&self) -> (r: Self) {
        let x = crate::rounding::ceil(self.x);
        let y = crate::rounding::ceil(self.y);
        let z = crate::rounding::ceil(self.z);
        Vector3 { x, y, z }
    }

    fn clamp(&self, min: &Self, max: &Self) -> (r: Self) {
        self.max(min).min(max)
    }

    fn multiply_add(&self, mul: &Self, add: &Self) -> (r: Self) {
        *self * *mul + *add
    }

    fn splat_x(&self) -> (r: Self) {
        let x = self.x;
        Vector3 {
            x: x,
            y: x,
            z: x,
        }
    }

    fn splat_y(&self) -> (r: Self) {
        let y = self.y;
        Vector3 {
            x: y,
            y: y,
            z: y,
        }
    }

    fn splat_z(&self) -> (r: Self) {
        let z = self.z;
        Vector3 {
            x: z,
            y: z,
            z: z,
        }
    }

    fn splat_w(&self) -> (r: Self) {
        let w = ZERO;
        Vector3 {
            x: w,
            y: w,
            z: w,
        }
    }
}

impl PartialEq for Vector3 {
    /// IEEE-754 equality of every component: a vector with a NaN
    /// component equals nothing, and `+0.0` equals `-0.0`.
    fn eq(&self, other: &Self) -> (r: bool) {
        crate::scalar::eq(self.x, other.x)
            && crate::scalar::eq(self.y, other.y)
            && crate::scalar::eq(self.z, other.z)
    }
}

impl PartialEqSpecImpl for Vector3 {
    open spec fn obeys_eq_spec() -> bool {
        true
    }

    open spec fn eq_spec(&self, other: &Self) -> bool {
        equal(self.x, other.x)
            && equal(self.y, other.y)
            && equal(self.z, other.z)
    }
}

impl Add for Vector3 {
    type Output = Vector3;

    /// Component-wise sum.
    fn add(self, rhs: Vector3) -> (r: Vector3) {
        let x = crate::arith::add(self.x, rhs.x);
        let y = crate::arith::add(self.y, rhs.y);
        let z = crate::arith::add(self.z, rhs.z);
        Vector3 { x, y, z }
    }
}

impl AddSpecImpl for Vector3 {
    open spec fn obeys_add_spec() -> bool {
        true
    }

    open spec fn add_req(self, rhs: Vector3) -> bool {
        true
    }

    open spec fn add_spec(self, rhs: Vector3) -> Vector3 {
        Vector3 {
            x: sum(self.x, rhs.x),
            y: sum(self.y, rhs.y),
            z: sum(self.z, rhs.z),
        }
    }
}

impl Sub for Vector3 {
    type Output = Vector3;

    /// Component-wise difference.
    fn sub(self, rhs: Vector3) -> (r: Vector3) {
        let x = crate::arith::sub(self.x, rhs.x);
        let y = crate::arith::sub(self.y, rhs.y);
        let z = crate::arith::sub(self.z, rhs.z);
        Vector3 { x, y, z }
    }
}

impl SubSpecImpl for Vector3 {
    open spec fn obeys_sub_spec() -> bool {
        true
    }

    open spec fn sub_req(self, rhs: Vector3) -> bool {
        true
    }

    open spec fn sub_spec(self, rhs: Vector3) -> Vector3 {
        Vector3 {
            x: difference(self.x, rhs.x),
            y: difference(self.y, rhs.y),
            z: difference(self.z, rhs.z),
        }
    }
}

impl Div for Vector3 {
    type Output = Vector3;

    /// Component-wise quotient; a zero divisor gives an infinity or a NaN.
    fn div(self, rhs: Vector3) -> (r: Vector3) {
        let x = crate::arith::div(self.x, rhs.x);
        let y = crate::arith::div(self.y, rhs.y);
        let z = crate::arith::div(self.z, rhs.z);
        Vector3 { x, y, z }
    }
}

impl DivSpecImpl for Vector3 {
    open spec fn obeys_div_spec() -> bool {
        true
    }

    open spec fn div_req(self, rhs: Vector3) -> bool {
        true
    }

    open spec fn div_spec(self, rhs: Vector3) -> Vector3 {
        Vector3 {
            x: quotient(self.x, rhs.x),
            y: quotient(self.y, rhs.y),
            z: quotient(self.z, rhs.z),
        }
    }
}

impl Mul for Vector3 {
    type Output = Vector3;

    /// Component-wise product.
    fn mul(self, rhs: Vector3) -> (r: Vector3) {
        let x = crate::arith::mul(self.x, rhs.x);
        let y = crate::arith::mul(self.y, rhs.y);
        let z = crate::arith::mul(self.z, rhs.z);
        Vector3 { x, y, z }
    }
}

impl MulSpecImpl for Vector3 {
    open spec fn obeys_mul_spec() -> bool {
        true
    }

    open spec fn mul_req(self, rhs: Vector3) -> bool {
        true
    }

    open spec fn mul_spec(self, rhs: Vector3) -> Vector3 {
        Vector3 {
            x: product(self.x, rhs.x),
            y: product(self.y, rhs.y),
            z: product(self.z, rhs.z),
        }
    }
}

impl Mul<u32> for Vector3 {
    type Output = Vector3;

    /// Every component times the scalar `rhs`, itself an encoding.
    fn mul(self, rhs: u32) -> (r: Vector3) {
        let x = crate::arith::mul(self.x, rhs);
        let y = crate::arith::mul(self.y, rhs);
        let z = crate::arith::mul(self.z, rhs);
        Vector3 { x, y, z }
    }
}

impl MulSpecImpl<u32> for Vector3 {
    open spec fn obeys_mul_spec() -> bool {
        true
    }

    open spec fn mul_req(self, rhs: u32) -> bool {
        true
    }

    open spec fn mul_spec(self, rhs: u32) -> Vector3 {
        Vector3 {
            x: product(self.x, rhs),
            y: product(self.y, rhs),
            z: product(self.z, rhs),
        }
    }
}

impl Neg for Vector3 {
    type Output = Vector3;

    /// Flips the sign of every component.
    fn neg(self) -> (r: Vector3) {
        let x = crate::scalar::neg(self.x);
        let y = crate::scalar::neg(self.y);
        let z = crate::scalar::neg(self.z);
        Vector3 { x, y, z }
    }
}

impl NegSpecImpl for Vector3 {
    open spec fn obeys_neg_spec() -> bool {
        true
    }

    open spec fn neg_req(self) -> bool {
        true
    }

    open spec fn neg_spec(self) -> Vector3 {
        Vector3 {
            x: negated(self.x),
            y: negated(self.y),
            z: negated(self.z),
        }
    }
}

impl Index<usize> for Vector3 {
    type Output = u32;

    /// Component `index`; index 3 reads as `+0.0`. An index of 4 or more is
    /// outside the domain.
    fn index(&self, index: usize) -> (r: &u32)
        ensures
            *r == self.lane(index as int),
    {
        if index == 0 {
            &self.x
        } else if index == 1 {
            &self.y
        } else if index == 2 {
            &self.z
        } else {
            &ZERO
        }
    }
}

impl vstd::std_specs::core::IndexSpecImpl<usize> for Vector3 {
    open spec fn index_req(&self, index: &usize) -> bool {
        *index < 4
    }
}

} // verus!
