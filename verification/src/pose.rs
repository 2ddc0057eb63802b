//! Rigid transforms in axis-angle form, and concrete linear frames.
//!
//! A [`Rotation`] is kept symbolically as an axis and an angle: the joints in
//! this crate only ever produce rotations about a fixed axis, and keeping the
//! angle as a coordinate (instead of evaluated trigonometry) lets every
//! transform identity be stated and proved exactly.
//!
//! A [`Pose`] is the rigid transform `x |-> post + R (x + pre)`, with `R` the
//! pose's rotation: `pre` is the offset applied in the child frame before
//! rotating, `post` the offset applied in the parent frame after.  The poses
//! built by the joints compose on the left with pure translations, and that
//! composition is exact: no rotation ever has to be applied to a concrete
//! vector to compose them.
//!
//! A [`Frame`] is a concrete linear map (a 3x3 integer matrix) supplied by
//! the caller when Jacobian columns have to be expressed in another frame;
//! producing one from a pose is numerical work that belongs to the driving
//! loop, not to this crate.

use vstd::prelude::*;

use crate::vec3::{V3, Vec3};

verus! {

/// Spec-level rotation: about `axis`, by `angle`.
pub ghost struct RotModel {
    pub axis: V3,
    pub angle: int,
}

impl RotModel {
    pub open spec fn identity() -> RotModel {
        RotModel { axis: V3::zero(), angle: 0 }
    }

    /// A rotation by a zero angle moves nothing, whatever its axis.
    pub open spec fn is_identity(self) -> bool {
        self.angle == 0
    }
}

/// Spec-level pose: the rigid transform `x |-> post + R (x + pre)`.
pub ghost struct PoseModel {
    pub rot: RotModel,
    pub pre: V3,
    pub post: V3,
}

impl PoseModel {
    pub open spec fn translation(t: V3) -> PoseModel {
        PoseModel { rot: RotModel::identity(), pre: V3::zero(), post: t }
    }

    /// The composition `self` after `rhs` (`self` applied second), defined
    /// when `self` does not rotate: then
    /// `self (rhs x) = self.post + self.pre + rhs.post + R_rhs (x + rhs.pre)`.
    pub open spec fn compose(self, rhs: PoseModel) -> PoseModel
        recommends
            self.rot.is_identity(),
    {
        PoseModel { rot: rhs.rot, pre: rhs.pre, post: self.post.add(self.pre).add(rhs.post) }
    }
}

/// Executable symbolic rotation about a fixed axis.
#[derive(Clone, Copy, Debug, PartialEq, Eq, Structural)]
pub struct Rotation {
    pub axis: Vec3,
    pub angle: i64,
}

impl View for Rotation {
    type V = RotModel;

    open spec fn view(&self) -> RotModel {
        RotModel { axis: self.axis@, angle: self.angle as int }
    }
}

impl Rotation {
    pub fn new(axis: Vec3, angle: i64) -> (r: Rotation)
        ensures
            r@ == (RotModel { axis: axis@, angle: angle as int }),
    {
        Rotation { axis, angle }
    }

    pub fn identity() -> (r: Rotation)
        ensures
            r@ == RotModel::identity(),
    {
        Rotation { axis: Vec3::zero(), angle: 0 }
    }
}

/// Executable rigid transform `x |-> post + R (x + pre)`.
#[derive(Clone, Copy, Debug, PartialEq, Eq, Structural)]
pub struct Pose {
    pub rot: Rotation,
    pub pre: Vec3,
    pub post: Vec3,
}

impl View for Pose {
    type V = PoseModel;

    open spec fn view(&self) -> PoseModel {
        PoseModel { rot: self.rot@, pre: self.pre@, post: self.post@ }
    }
}

impl Pose {
    pub fn from_parts(rot: Rotation, pre: Vec3, post: Vec3) -> (r: Pose)
        ensures
            r@ == (PoseModel { rot: rot@, pre: pre@, post: post@ }),
    {
        Pose { rot, pre, post }
    }

    /// The pure translation by `t`.
    pub fn translation(t: &Vec3) -> (r: Pose)
        ensures
            r@ == PoseModel::translation(t@),
    {
        Pose { rot: Rotation::identity(), pre: Vec3::zero(), post: *t }
    }

    /// Composes `self` after `rhs`: the transform that applies `rhs` first.
    /// `self` must not rotate; the poses this crate builds only ever compose
    /// a translation onto a rotating pose, and a symbolic axis-angle form
    /// cannot hold the product of two rotations about different axes.
    pub fn compose(&self, rhs: &Pose) -> (r: Pose)
        requires
            self@.rot.is_identity(),
            self@.post.add(self@.pre).fits(),
            self@.post.add(self@.pre).add(rhs@.post).fits(),
        ensures
            r@ == self@.compose(rhs@),
    {
        Pose { rot: rhs.rot, pre: rhs.pre, post: self.post.add(&self.pre).add(&rhs.post) }
    }
}

/// Spec-level 3x3 matrix, held by rows.
pub ghost struct M3 {
    pub r0: V3,
    pub r1: V3,
    pub r2: V3,
}

impl M3 {
    pub open spec fn mul(self, v: V3) -> V3 {
        V3 { x: self.r0.dot(v), y: self.r1.dot(v), z: self.r2.dot(v) }
    }

    pub open spec fn identity() -> M3 {
        M3 {
            r0: V3 { x: 1, y: 0, z: 0 },
            r1: V3 { x: 0, y: 1, z: 0 },
            r2: V3 { x: 0, y: 0, z: 1 },
        }
    }
}

/// Executable concrete linear frame: the 3x3 integer matrix through which
/// Jacobian columns are expressed in the requested frame.
#[derive(Clone, Copy, Debug, PartialEq, Eq, Structural)]
pub struct Frame {
    pub r0: Vec3,
    pub r1: Vec3,
    pub r2: Vec3,
}

impl View for Frame {
    type V = M3;

    open spec fn view(&self) -> M3 {
        M3 { r0: self.r0@, r1: self.r1@, r2: self.r2@ }
    }
}

impl Frame {
    pub fn new(r0: Vec3, r1: Vec3, r2: Vec3) -> (r: Frame)
        ensures
            r@ == (M3 { r0: r0@, r1: r1@, r2: r2@ }),
    {
        Frame { r0, r1, r2 }
    }

    pub fn identity() -> (r: Frame)
        ensures
            r@ == M3::identity(),
    {
        Frame {
            r0: Vec3 { x: 1, y: 0, z: 0 },
            r1: Vec3 { x: 0, y: 1, z: 0 },
            r2: Vec3 { x: 0, y: 0, z: 1 },
        }
    }

    /// Applies the frame's matrix to a vector.
    pub fn mul_vec(&self, v: &Vec3) -> (r: Vec3)
        requires
            self@.mul(v@).fits(),
        ensures
            r@ == self@.mul(v@),
    {
        Vec3 { x: self.r0.dot(v), y: self.r1.dot(v), z: self.r2.dot(v) }
    }
}

} // verus!
