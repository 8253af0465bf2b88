//! 3-vector arithmetic for burn-direction reasoning: dot and cross products
//! and magnitude, over fixed-point integer components.
//!
//! No arc-cosine, so no angle operation: an angle against a threshold is
//! compared through its cosine, which the dot product and the magnitudes
//! give without a transcendental — `angle(a, b) <= t` exactly when
//! `a.dot(b) >= mag(a) * mag(b) * cos(t)`, with `cos(t)` a constant of the
//! caller's.

use vstd::prelude::*;

use crate::math::{isqrt, sqrt_floor};

verus! {

/// Largest component magnitude the vector operations accept; keeps every
/// product sum inside the machine range.
pub const VEC_BOUND: i64 = 1_000_000_000;

/// A 3-vector of fixed-point components; the caller picks the unit.
#[derive(Debug, Clone, Copy, PartialEq, Eq, Structural)]
pub struct Vec3D {
    pub x: i64,
    pub y: i64,
    pub z: i64,
}

impl Vec3D {
    pub open spec fn wf(self) -> bool {
        &&& -VEC_BOUND <= self.x <= VEC_BOUND
        &&& -VEC_BOUND <= self.y <= VEC_BOUND
        &&& -VEC_BOUND <= self.z <= VEC_BOUND
    }

    pub fn new(x: i64, y: i64, z: i64) -> (r: Self)
        ensures
            r == (Vec3D { x, y, z }),
    {
        Vec3D { x, y, z }
    }

    /// Dot product.
    pub fn dot(&self, other: &Vec3D) -> (r: i64)
        requires
            self.wf(),
            other.wf(),
        ensures
            r == self.x * other.x + self.y * other.y + self.z * other.z,
    {
        proof {
            lemma_component_product_bound(self.x as int, other.x as int);
            lemma_component_product_bound(self.y as int, other.y as int);
            lemma_component_product_bound(self.z as int, other.z as int);
        }
        self.x * other.x + self.y * other.y + self.z * other.z
    }

    /// Cross product.
    pub fn cross(&self, other: &Vec3D) -> (r: Vec3D)
        requires
            self.wf(),
            other.wf(),
        ensures
            r.x == self.y * other.z - self.z * other.y,
            r.y == self.z * other.x - self.x * other.z,
            r.z == self.x * other.y - self.y * other.x,
    {
        proof {
            lemma_component_product_bound(self.x as int, other.x as int);
            lemma_component_product_bound(self.x as int, other.y as int);
            lemma_component_product_bound(self.x as int, other.z as int);
            lemma_component_product_bound(self.y as int, other.x as int);
            lemma_component_product_bound(self.y as int, other.y as int);
            lemma_component_product_bound(self.y as int, other.z as int);
            lemma_component_product_bound(self.z as int, other.x as int);
            lemma_component_product_bound(self.z as int, other.y as int);
            lemma_component_product_bound(self.z as int, other.z as int);
        }
        Vec3D {
            x: self.y * other.z - self.z * other.y,
            y: self.z * other.x - self.x * other.z,
            z: self.x * other.y - self.y * other.x,
        }
    }

    /// Magnitude, rounded down.
    pub fn mag(&self) -> (r: u64)
        requires
            self.wf(),
        ensures
            r == sqrt_floor(
                (self.x * self.x + self.y * self.y + self.z * self.z) as nat,
            ),
    {
        proof {
            lemma_component_square_bound(self.x as int);
            lemma_component_square_bound(self.y as int);
            lemma_component_square_bound(self.z as int);
        }
        let xx = (self.x as i128) * (self.x as i128);
        let yy = (self.y as i128) * (self.y as i128);
        let zz = (self.z as i128) * (self.z as i128);
        isqrt((xx + yy + zz) as u128)
    }
}

proof fn lemma_component_product_bound(a: int, b: int)
    requires
        -VEC_BOUND <= a <= VEC_BOUND,
        -VEC_BOUND <= b <= VEC_BOUND,
    ensures
        -1_000_000_000_000_000_000 <= a * b <= 1_000_000_000_000_000_000,
{
    assert(-1_000_000_000_000_000_000 <= a * b <= 1_000_000_000_000_000_000)
        by (nonlinear_arith)
        requires
            -1_000_000_000 <= a <= 1_000_000_000,
            -1_000_000_000 <= b <= 1_000_000_000,
    ;
}

proof fn lemma_component_square_bound(a: int)
    requires
        -VEC_BOUND <= a <= VEC_BOUND,
    ensures
        0 <= a * a <= 1_000_000_000_000_000_000,
{
    assert(0 <= a * a <= 1_000_000_000_000_000_000) by (nonlinear_arith)
        requires
            -1_000_000_000 <= a <= 1_000_000_000,
    ;
}

} // verus!
