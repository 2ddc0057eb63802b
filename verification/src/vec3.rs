//! Exact integer 3-vectors and their mathematical model.
//!
//! Executable vectors carry `i64` components; the spec-level model `V3`
//! carries unbounded integers, so contracts can state component arithmetic
//! without worrying about machine width.  Every executable operation requires
//! that its exact result fits in `i64` and ensures that it equals the model
//! operation.

use vstd::prelude::*;

verus! {

/// True when the unbounded integer `x` fits in an `i64`.
pub open spec fn in_i64(x: int) -> bool {
    i64::MIN <= x <= i64::MAX
}

/// The product of two `i64` values lies within `i128`.
pub proof fn lemma_mul_i64_bound(a: int, b: int)
    requires
        in_i64(a),
        in_i64(b),
    ensures
        -0x40000000000000000000000000000000 <= a * b
            <= 0x40000000000000000000000000000000,
{
    assert(-0x40000000000000000000000000000000 <= a * b
        <= 0x40000000000000000000000000000000) by (nonlinear_arith)
        requires
            in_i64(a),
            in_i64(b),
    ;
}

/// Scaling distributes over a sum of scale factors:
/// `v * (a + b) == v * a + v * b`, componentwise and exactly.
pub proof fn lemma_scale_add(v: V3, a: int, b: int)
    ensures
        v.scale(a + b) == v.scale(a).add(v.scale(b)),
{
    assert(v.x * (a + b) == v.x * a + v.x * b) by (nonlinear_arith);
    assert(v.y * (a + b) == v.y * a + v.y * b) by (nonlinear_arith);
    assert(v.z * (a + b) == v.z * a + v.z * b) by (nonlinear_arith);
}

/// Spec-level vector with unbounded integer components.
pub ghost struct V3 {
    pub x: int,
    pub y: int,
    pub z: int,
}

impl V3 {
    pub open spec fn zero() -> V3 {
        V3 { x: 0, y: 0, z: 0 }
    }

    pub open spec fn add(self, other: V3) -> V3 {
        V3 { x: self.x + other.x, y: self.y + other.y, z: self.z + other.z }
    }

    pub open spec fn sub(self, other: V3) -> V3 {
        V3 { x: self.x - other.x, y: self.y - other.y, z: self.z - other.z }
    }

    pub open spec fn neg(self) -> V3 {
        V3 { x: -self.x, y: -self.y, z: -self.z }
    }

    pub open spec fn scale(self, k: int) -> V3 {
        V3 { x: self.x * k, y: self.y * k, z: self.z * k }
    }

    pub open spec fn cross(self, other: V3) -> V3 {
        V3 {
            x: self.y * other.z - self.z * other.y,
            y: self.z * other.x - self.x * other.z,
            z: self.x * other.y - self.y * other.x,
        }
    }

    pub open spec fn dot(self, other: V3) -> int {
        self.x * other.x + self.y * other.y + self.z * other.z
    }

    /// Every component fits in an `i64`.
    pub open spec fn fits(self) -> bool {
        in_i64(self.x) && in_i64(self.y) && in_i64(self.z)
    }
}

/// Executable 3-vector with exact `i64` components.
#[derive(Clone, Copy, Debug, PartialEq, Eq, Structural)]
pub struct Vec3 {
    pub x: i64,
    pub y: i64,
    pub z: i64,
}

impl View for Vec3 {
    type V = V3;

    open spec fn view(&self) -> V3 {
        V3 { x: self.x as int, y: self.y as int, z: self.z as int }
    }
}

impl Vec3 {
    pub fn new(x: i64, y: i64, z: i64) -> (r: Vec3)
        ensures
            r@ == (V3 { x: x as int, y: y as int, z: z as int }),
    {
        Vec3 { x, y, z }
    }

    pub fn zero() -> (r: Vec3)
        ensures
            r@ == V3::zero(),
    {
        Vec3 { x: 0, y: 0, z: 0 }
    }

    pub fn add(&self, other: &Vec3) -> (r: Vec3)
        requires
            self@.add(other@).fits(),
        ensures
            r@ == self@.add(other@),
    {
        Vec3 { x: self.x + other.x, y: self.y + other.y, z: self.z + other.z }
    }

    pub fn sub(&self, other: &Vec3) -> (r: Vec3)
        requires
            self@.sub(other@).fits(),
        ensures
            r@ == self@.sub(other@),
    {
        Vec3 { x: self.x - other.x, y: self.y - other.y, z: self.z - other.z }
    }

    pub fn neg(&self) -> (r: Vec3)
        requires
            self@.neg().fits(),
        ensures
            r@ == self@.neg(),
    {
        Vec3 { x: -self.x, y: -self.y, z: -self.z }
    }

    pub fn scale(&self, k: i64) -> (r: Vec3)
        requires
            self@.scale(k as int).fits(),
        ensures
            r@ == self@.scale(k as int),
    {
        Vec3 { x: self.x * k, y: self.y * k, z: self.z * k }
    }

    pub fn cross(&self, other: &Vec3) -> (r: Vec3)
        requires
            self@.cross(other@).fits(),
        ensures
            r@ == self@.cross(other@),
    {
        proof {
            lemma_mul_i64_bound(self.y as int, other.z as int);
            lemma_mul_i64_bound(self.z as int, other.y as int);
            lemma_mul_i64_bound(self.z as int, other.x as int);
            lemma_mul_i64_bound(self.x as int, other.z as int);
            lemma_mul_i64_bound(self.x as int, other.y as int);
            lemma_mul_i64_bound(self.y as int, other.x as int);
        }
        let x: i128 = (self.y as i128) * (other.z as i128) - (self.z as i128) * (other.y as i128);
        let y: i128 = (self.z as i128) * (other.x as i128) - (self.x as i128) * (other.z as i128);
        let z: i128 = (self.x as i128) * (other.y as i128) - (self.y as i128) * (other.x as i128);
        Vec3 { x: x as i64, y: y as i64, z: z as i64 }
    }

    pub fn dot(&self, other: &Vec3) -> (r: i64)
        requires
            in_i64(self@.dot(other@)),
        ensures
            r == self@.dot(other@),
    {
        proof {
            lemma_mul_i64_bound(self.x as int, other.x as int);
            lemma_mul_i64_bound(self.y as int, other.y as int);
            lemma_mul_i64_bound(self.z as int, other.z as int);
        }
        let px: i128 = (self.x as i128) * (other.x as i128);
        let py: i128 = (self.y as i128) * (other.y as i128);
        let pz: i128 = (self.z as i128) * (other.z as i128);
        let d: i128 = px + py + pz;
        d as i64
    }
}

} // verus!
