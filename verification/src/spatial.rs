//! Spatial (linear + angular) velocities.
//!
//! A joint's Jacobian maps generalized velocities to the spatial velocity it
//! induces on the child link; the bias term is a spatial acceleration with
//! the same shape.  Both are pairs of exact integer 3-vectors.

use vstd::prelude::*;

use crate::vec3::{V3, Vec3};

verus! {

/// Spec-level spatial vector: a linear and an angular part.
pub ghost struct SpatialVec {
    pub linear: V3,
    pub angular: V3,
}

impl SpatialVec {
    pub open spec fn zero() -> SpatialVec {
        SpatialVec { linear: V3::zero(), angular: V3::zero() }
    }

    pub open spec fn add(self, other: SpatialVec) -> SpatialVec {
        SpatialVec { linear: self.linear.add(other.linear), angular: self.angular.add(other.angular) }
    }

    pub open spec fn scale(self, k: int) -> SpatialVec {
        SpatialVec { linear: self.linear.scale(k), angular: self.angular.scale(k) }
    }

    pub open spec fn fits(self) -> bool {
        self.linear.fits() && self.angular.fits()
    }
}

/// Executable spatial vector: the velocity (or acceleration) of a rigid body,
/// split into the velocity of its origin and its angular velocity.
#[derive(Clone, Copy, Debug, PartialEq, Eq, Structural)]
pub struct Velocity {
    pub linear: Vec3,
    pub angular: Vec3,
}

impl View for Velocity {
    type V = SpatialVec;

    open spec fn view(&self) -> SpatialVec {
        SpatialVec { linear: self.linear@, angular: self.angular@ }
    }
}

impl Velocity {
    pub fn new(linear: Vec3, angular: Vec3) -> (r: Velocity)
        ensures
            r@ == (SpatialVec { linear: linear@, angular: angular@ }),
    {
        Velocity { linear, angular }
    }

    pub fn zero() -> (r: Velocity)
        ensures
            r@ == SpatialVec::zero(),
    {
        Velocity { linear: Vec3::zero(), angular: Vec3::zero() }
    }

    pub fn add(&self, other: &Velocity) -> (r: Velocity)
        requires
            self@.add(other@).fits(),
        ensures
            r@ == self@.add(other@),
    {
        Velocity { linear: self.linear.add(&other.linear), angular: self.angular.add(&other.angular) }
    }

    pub fn scale(&self, k: i64) -> (r: Velocity)
        requires
            self@.scale(k as int).fits(),
        ensures
            r@ == self@.scale(k as int),
    {
        Velocity { linear: self.linear.scale(k), angular: self.angular.scale(k) }
    }
}

} // verus!
