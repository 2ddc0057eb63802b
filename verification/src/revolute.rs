//! Revolute joint: rotation about a fixed axis.
//!
//! The joint owns one generalized coordinate, the angle about its axis.
//! Its Jacobian terms are held in the child link's frame, where they are
//! exact integer vectors: the unit angular response is the axis itself, the
//! unit linear response is the moment arm of the anchor, and the time
//! derivative of the linear response is the cross product with the current
//! angular velocity.

use vstd::prelude::*;

use crate::constraint::{BilateralGroundConstraint, ConstraintSet, IntegrationParameters,
    UnilateralGroundConstraint};
use crate::jacobian::{column_holds, untouched_outside_columns, write_column};
use crate::pose::{Frame, M3, Pose, PoseModel, Rotation, RotModel};
use crate::spatial::{SpatialVec, Velocity};
use crate::vec3::{in_i64, lemma_mul_i64_bound, V3, Vec3};

verus! {

/// A joint rotating its child about `axis` by `angle`.
#[derive(Clone, Copy, Debug, PartialEq, Eq, Structural)]
pub struct RevoluteJoint {
    /// Rotation axis, fixed in the parent link's frame.
    pub axis: Vec3,
    /// Generalized coordinate: the rotation angle about `axis`.
    pub angle: i64,
    /// Body-frame unit velocity response, refreshed by `update_jacobians`.
    pub jac: Velocity,
    /// Body-frame time derivative of `jac`, refreshed by `update_jacobians`.
    pub jac_dot: Velocity,
    /// True while the angular motor drives the coordinate.
    pub motor_enabled: bool,
    /// Velocity the motor drives the coordinate toward.
    pub motor_target_vel: i64,
    /// True while the lower bound on `angle` is enforced.
    pub min_angle_enabled: bool,
    /// Lower bound on `angle`.
    pub min_angle: i64,
    /// True while the upper bound on `angle` is enforced.
    pub max_angle_enabled: bool,
    /// Upper bound on `angle`.
    pub max_angle: i64,
}

impl RevoluteJoint {
    /// Number of generalized coordinates the joint owns, constant for its
    /// lifetime.
    pub open spec fn ndofs_spec(self) -> int {
        1
    }

    /// The joint's generalized-coordinate vector.
    pub open spec fn coords_spec(self) -> Seq<int> {
        seq![self.angle as int]
    }

    /// The body-frame unit response determined by the anchor offset
    /// `body_shift`: turning about the axis drags the child origin along
    /// the moment arm of the anchor.
    pub open spec fn updated_jacobian_spec(self, body_shift: V3) -> SpatialVec {
        SpatialVec { linear: self.axis@.cross(body_shift.neg()), angular: self.axis@ }
    }

    /// The body-frame time derivative of the unit response at angular
    /// velocity `v`: the linear part is swept by the current rotation rate,
    /// the angular part (the axis) is invariant.
    pub open spec fn updated_jacobian_dot_spec(self, body_shift: V3, v: int) -> SpatialVec {
        SpatialVec {
            linear: self.axis@.scale(v).cross(self.axis@.cross(body_shift.neg())),
            angular: V3::zero(),
        }
    }

    /// The stored Jacobian column expressed through the caller's frame.
    pub open spec fn mapped_jacobian_spec(self, m: M3) -> SpatialVec {
        SpatialVec { linear: m.mul(self.jac@.linear), angular: m.mul(self.jac@.angular) }
    }

    /// The stored Jacobian derivative expressed through the caller's frame.
    pub open spec fn mapped_jacobian_dot_spec(self, m: M3) -> SpatialVec {
        SpatialVec { linear: m.mul(self.jac_dot@.linear), angular: m.mul(self.jac_dot@.angular) }
    }

    /// Directional derivative of the Jacobian time-derivative with respect
    /// to the joint velocity, applied to velocity `v`.
    pub open spec fn veldiff_mul_spec(self, v: int) -> SpatialVec {
        SpatialVec { linear: self.axis@.cross(self.jac@.linear).scale(v), angular: V3::zero() }
    }

    /// Spatial velocity induced by generalized velocity `v`.
    pub open spec fn jacobian_mul_spec(self, v: int) -> SpatialVec {
        self.jac@.scale(v)
    }

    /// Bias acceleration induced by generalized velocity `v`.
    pub open spec fn jacobian_dot_mul_spec(self, v: int) -> SpatialVec {
        self.jac_dot@.scale(v)
    }

    /// Transform from the child link's frame to the parent's at coordinate
    /// `angle`: `x |-> parent_shift + R(axis, angle) (x - body_shift)`.
    pub open spec fn body_to_parent_spec(self, parent_shift: V3, body_shift: V3) -> PoseModel {
        PoseModel {
            rot: RotModel { axis: self.axis@, angle: self.angle as int },
            pre: body_shift.neg(),
            post: parent_shift,
        }
    }

    /// Number of constraint rows the joint contributes this step.
    pub open spec fn nconstraints_spec(self) -> int {
        (if self.motor_enabled { 1int } else { 0int })
            + (if self.min_limit_active() { 1int } else { 0int })
            + (if self.max_limit_active() { 1int } else { 0int })
    }

    /// The lower limit is enforced and the coordinate is at or below it.
    pub open spec fn min_limit_active(self) -> bool {
        self.min_angle_enabled && self.angle <= self.min_angle
    }

    /// The upper limit is enforced and the coordinate is at or above it.
    pub open spec fn max_limit_active(self) -> bool {
        self.max_angle_enabled && self.angle >= self.max_angle
    }

    /// Creates the joint at coordinate `angle`, motor and limits disabled.
    /// The linear response starts at zero until `update_jacobians` learns
    /// the anchor offset.
    pub fn new(axis: Vec3, angle: i64) -> (r: RevoluteJoint)
        ensures
            r == (RevoluteJoint {
                axis,
                angle,
                jac: (Velocity { linear: (Vec3 { x: 0, y: 0, z: 0 }), angular: axis }),
                jac_dot: (Velocity {
                    linear: (Vec3 { x: 0, y: 0, z: 0 }),
                    angular: (Vec3 { x: 0, y: 0, z: 0 }),
                }),
                motor_enabled: false,
                motor_target_vel: 0,
                min_angle_enabled: false,
                min_angle: 0,
                max_angle_enabled: false,
                max_angle: 0,
            }),
    {
        RevoluteJoint {
            axis,
            angle,
            jac: Velocity { linear: Vec3 { x: 0, y: 0, z: 0 }, angular: axis },
            jac_dot: Velocity {
                linear: Vec3 { x: 0, y: 0, z: 0 },
                angular: Vec3 { x: 0, y: 0, z: 0 },
            },
            motor_enabled: false,
            motor_target_vel: 0,
            min_angle_enabled: false,
            min_angle: 0,
            max_angle_enabled: false,
            max_angle: 0,
        }
    }

    /// Current rotation coordinate.
    pub fn angle(&self) -> (r: i64)
        ensures
            r == self.angle,
    {
        self.angle
    }

    /// The rotation the joint currently applies.
    pub fn rotation(&self) -> (r: Rotation)
        ensures
            r@ == (RotModel { axis: self.axis@, angle: self.angle as int }),
    {
        Rotation::new(self.axis, self.angle)
    }

    pub fn ndofs(&self) -> (n: usize)
        ensures
            n == self.ndofs_spec(),
    {
        1
    }

    pub fn body_to_parent(&self, parent_shift: &Vec3, body_shift: &Vec3) -> (r: Pose)
        requires
            body_shift@.neg().fits(),
        ensures
            r@ == self.body_to_parent_spec(parent_shift@, body_shift@),
    {
        Pose::from_parts(Rotation::new(self.axis, self.angle), body_shift.neg(), *parent_shift)
    }

    /// Recomputes the stored Jacobian and its time derivative from the
    /// anchor offset and the current velocity of this joint's dof slot.
    pub fn update_jacobians(&mut self, body_shift: &Vec3, vels: &Vec<i64>)
        requires
            vels@.len() >= old(self).ndofs_spec(),
            body_shift@.neg().fits(),
            old(self).updated_jacobian_spec(body_shift@).fits(),
            old(self).axis@.scale(vels@[0] as int).fits(),
            old(self).updated_jacobian_dot_spec(body_shift@, vels@[0] as int).fits(),
        ensures
            final(self).jac@ == old(self).updated_jacobian_spec(body_shift@),
            final(self).jac_dot@ == old(self).updated_jacobian_dot_spec(
                body_shift@,
                vels@[0] as int,
            ),
            *final(self) == (RevoluteJoint {
                jac: final(self).jac,
                jac_dot: final(self).jac_dot,
                ..*old(self)
            }),
    {
        let v = vels[0];
        let lin = self.axis.cross(&body_shift.neg());
        self.jac = Velocity { linear: lin, angular: self.axis };
        self.jac_dot = Velocity {
            linear: self.axis.scale(v).cross(&lin),
            angular: Vec3 { x: 0, y: 0, z: 0 },
        };
    }

    /// Writes the joint's single Jacobian column at column `col`, expressed
    /// through `frame`; every slot outside that column is left unchanged.
    pub fn jacobian(&self, frame: &Frame, out: &mut Vec<i64>, col: usize)
        requires
            6 * col + 6 <= old(out).len(),
            self.mapped_jacobian_spec(frame@).fits(),
        ensures
            untouched_outside_columns(old(out)@, final(out)@, col as int, 1),
            column_holds(final(out)@, col as int, self.mapped_jacobian_spec(frame@)),
    {
        let column = Velocity::new(
            frame.mul_vec(&self.jac.linear),
            frame.mul_vec(&self.jac.angular),
        );
        write_column(out, col, &column);
    }

    /// Writes the time derivative of the Jacobian column at column `col`.
    pub fn jacobian_dot(&self, frame: &Frame, out: &mut Vec<i64>, col: usize)
        requires
            6 * col + 6 <= old(out).len(),
            self.mapped_jacobian_dot_spec(frame@).fits(),
        ensures
            untouched_outside_columns(old(out)@, final(out)@, col as int, 1),
            column_holds(final(out)@, col as int, self.mapped_jacobian_dot_spec(frame@)),
    {
        let column = Velocity::new(
            frame.mul_vec(&self.jac_dot.linear),
            frame.mul_vec(&self.jac_dot.angular),
        );
        write_column(out, col, &column);
    }

    /// Writes the directional derivative of the Jacobian time-derivative
    /// with respect to the joint velocity, applied to `vels[0]`.
    pub fn jacobian_dot_veldiff_mul_coordinates(
        &self,
        frame: &Frame,
        vels: &Vec<i64>,
        out: &mut Vec<i64>,
        col: usize,
    )
        requires
            vels@.len() >= self.ndofs_spec(),
            6 * col + 6 <= old(out).len(),
            self.axis@.cross(self.jac@.linear).fits(),
            self.veldiff_mul_spec(vels@[0] as int).fits(),
            frame@.mul(self.veldiff_mul_spec(vels@[0] as int).linear).fits(),
        ensures
            untouched_outside_columns(old(out)@, final(out)@, col as int, 1),
            column_holds(final(out)@, col as int, (SpatialVec {
                linear: frame@.mul(self.veldiff_mul_spec(vels@[0] as int).linear),
                angular: V3::zero(),
            })),
    {
        let v = vels[0];
        let lin = self.axis.cross(&self.jac.linear).scale(v);
        let column = Velocity::new(frame.mul_vec(&lin), Vec3 { x: 0, y: 0, z: 0 });
        write_column(out, col, &column);
    }

    /// Spatial velocity induced on the child by generalized velocity
    /// `vels[0]`.
    pub fn jacobian_mul_coordinates(&self, vels: &Vec<i64>) -> (r: Velocity)
        requires
            vels@.len() >= self.ndofs_spec(),
            self.jacobian_mul_spec(vels@[0] as int).fits(),
        ensures
            r@ == self.jacobian_mul_spec(vels@[0] as int),
    {
        let v = vels[0];
        self.jac.scale(v)
    }

    /// Bias acceleration induced on the child by generalized velocity
    /// `vels[0]`.
    pub fn jacobian_dot_mul_coordinates(&self, vels: &Vec<i64>) -> (r: Velocity)
        requires
            vels@.len() >= self.ndofs_spec(),
            self.jacobian_dot_mul_spec(vels@[0] as int).fits(),
        ensures
            r@ == self.jacobian_dot_mul_spec(vels@[0] as int),
    {
        let v = vels[0];
        self.jac_dot.scale(v)
    }

    /// Semi-implicit integration of the coordinate: the angle advances by
    /// `dt` times the already-solved velocity of this joint's dof slot.
    pub fn apply_displacement(&mut self, params: &IntegrationParameters, vels: &Vec<i64>)
        requires
            vels@.len() >= old(self).ndofs_spec(),
            in_i64(old(self).angle + params.dt * vels@[0]),
        ensures
            *final(self) == (RevoluteJoint {
                angle: (old(self).angle + params.dt * vels@[0]) as i64,
                ..*old(self)
            }),
    {
        let v = vels[0];
        proof {
            lemma_mul_i64_bound(params.dt as int, v as int);
        }
        let step: i128 = (params.dt as i128) * (v as i128);
        let new_angle: i128 = (self.angle as i128) + step;
        self.angle = new_angle as i64;
    }

    pub fn nconstraints(&self) -> (n: usize)
        ensures
            n == self.nconstraints_spec(),
    {
        let mut n: usize = 0;
        if self.motor_enabled {
            n += 1;
        }
        if self.min_angle_enabled && self.angle <= self.min_angle {
            n += 1;
        }
        if self.max_angle_enabled && self.angle >= self.max_angle {
            n += 1;
        }
        n
    }

    /// Motor rows this joint appends when building constraints, with the
    /// auxiliary Jacobian row counter standing at `gid`.
    pub open spec fn bilateral_rows_spec(
        self,
        assembly_id: usize,
        dof_id: usize,
        ext_vels: Seq<i64>,
        gid: int,
    ) -> Seq<BilateralGroundConstraint> {
        if self.motor_enabled {
            seq![
                BilateralGroundConstraint {
                    assembly_id,
                    jacobian_id: gid as usize,
                    dof_id,
                    rhs: (self.motor_target_vel - ext_vels[assembly_id + dof_id]) as i64,
                },
            ]
        } else {
            Seq::empty()
        }
    }

    /// Limit rows this joint appends when building constraints, following
    /// its motor rows.
    pub open spec fn unilateral_rows_spec(self, assembly_id: usize, dof_id: usize, gid: int)
        -> Seq<UnilateralGroundConstraint> {
        let min_gid = gid + if self.motor_enabled { 1int } else { 0int };
        let max_gid = min_gid + if self.min_limit_active() { 1int } else { 0int };
        (if self.min_limit_active() {
            seq![
                UnilateralGroundConstraint {
                    assembly_id,
                    jacobian_id: min_gid as usize,
                    dof_id,
                    rhs: (self.min_angle - self.angle) as i64,
                },
            ]
        } else {
            Seq::empty()
        }) + (if self.max_limit_active() {
            seq![
                UnilateralGroundConstraint {
                    assembly_id,
                    jacobian_id: max_gid as usize,
                    dof_id,
                    rhs: (self.angle - self.max_angle) as i64,
                },
            ]
        } else {
            Seq::empty()
        })
    }

    /// Coefficients written into the auxiliary Jacobian buffer, one per
    /// appended row.
    pub open spec fn row_coeffs_spec(self) -> Seq<i64> {
        (if self.motor_enabled { seq![1i64] } else { Seq::empty() })
            + (if self.min_limit_active() { seq![1i64] } else { Seq::empty() })
            + (if self.max_limit_active() { seq![(-1) as i64] } else { Seq::empty() })
    }

    /// Appends this joint's motor and limit rows to the shared constraint
    /// set, writing one auxiliary Jacobian coefficient per row at the shared
    /// row counter and advancing it by the number of rows used.
    pub fn build_constraints(
        &self,
        params: &IntegrationParameters,
        assembly_id: usize,
        dof_id: usize,
        ext_vels: &Vec<i64>,
        ground_jacobian_id: &mut usize,
        jacobians: &mut Vec<i64>,
        constraints: &mut ConstraintSet,
    )
        requires
            assembly_id + dof_id < ext_vels.len(),
            *old(ground_jacobian_id) + self.nconstraints_spec() <= old(jacobians).len(),
            self.motor_enabled ==> in_i64(
                self.motor_target_vel - ext_vels@[assembly_id + dof_id],
            ),
            self.min_limit_active() ==> in_i64(self.min_angle - self.angle),
            self.max_limit_active() ==> in_i64(self.angle - self.max_angle),
        ensures
            *final(ground_jacobian_id) == *old(ground_jacobian_id) + self.nconstraints_spec(),
            final(jacobians)@.len() == old(jacobians)@.len(),
            forall|i: int|
                0 <= i < old(jacobians)@.len()
                    && !(*old(ground_jacobian_id) <= i
                        < *old(ground_jacobian_id) + self.nconstraints_spec())
                    ==> final(jacobians)@[i] == old(jacobians)@[i],
            final(jacobians)@.subrange(
                *old(ground_jacobian_id) as int,
                *old(ground_jacobian_id) + self.nconstraints_spec(),
            ) == self.row_coeffs_spec(),
            final(constraints).bilateral@ == old(constraints).bilateral@
                + self.bilateral_rows_spec(
                    assembly_id,
                    dof_id,
                    ext_vels@,
                    *old(ground_jacobian_id) as int,
                ),
            final(constraints).unilateral@ == old(constraints).unilateral@
                + self.unilateral_rows_spec(
                    assembly_id,
                    dof_id,
                    *old(ground_jacobian_id) as int,
                ),
    {
        let ghost g0: int = *ground_jacobian_id as int;
        if self.motor_enabled {
            let rhs = self.motor_target_vel - ext_vels[assembly_id + dof_id];
            jacobians.set(*ground_jacobian_id, 1);
            constraints.bilateral.push(BilateralGroundConstraint {
                assembly_id,
                jacobian_id: *ground_jacobian_id,
                dof_id,
                rhs,
            });
            *ground_jacobian_id += 1;
        }
        if self.min_angle_enabled && self.angle <= self.min_angle {
            let rhs = self.min_angle - self.angle;
            jacobians.set(*ground_jacobian_id, 1);
            constraints.unilateral.push(UnilateralGroundConstraint {
                assembly_id,
                jacobian_id: *ground_jacobian_id,
                dof_id,
                rhs,
            });
            *ground_jacobian_id += 1;
        }
        if self.max_angle_enabled && self.angle >= self.max_angle {
            let rhs = self.angle - self.max_angle;
            jacobians.set(*ground_jacobian_id, -1);
            constraints.unilateral.push(UnilateralGroundConstraint {
                assembly_id,
                jacobian_id: *ground_jacobian_id,
                dof_id,
                rhs,
            });
            *ground_jacobian_id += 1;
        }
        proof {
            assert(jacobians@.subrange(g0, g0 + self.nconstraints_spec())
                =~= self.row_coeffs_spec());
            assert(constraints.bilateral@ =~= old(constraints).bilateral@
                + self.bilateral_rows_spec(assembly_id, dof_id, ext_vels@, g0));
            assert(constraints.unilateral@ =~= old(constraints).unilateral@
                + self.unilateral_rows_spec(assembly_id, dof_id, g0));
        }
    }

    /// Turns the angular motor on, driving the coordinate toward velocity
    /// `target_vel`.
    pub fn set_desired_angular_motor_velocity(&mut self, target_vel: i64)
        ensures
            *final(self) == (RevoluteJoint {
                motor_enabled: true,
                motor_target_vel: target_vel,
                ..*old(self)
            }),
    {
        self.motor_enabled = true;
        self.motor_target_vel = target_vel;
    }

    pub fn disable_angular_motor(&mut self)
        ensures
            *final(self) == (RevoluteJoint { motor_enabled: false, ..*old(self) }),
    {
        self.motor_enabled = false;
    }

    pub fn enable_min_angle(&mut self, min: i64)
        ensures
            *final(self) == (RevoluteJoint {
                min_angle_enabled: true,
                min_angle: min,
                ..*old(self)
            }),
    {
        self.min_angle_enabled = true;
        self.min_angle = min;
    }

    pub fn disable_min_angle(&mut self)
        ensures
            *final(self) == (RevoluteJoint { min_angle_enabled: false, ..*old(self) }),
    {
        self.min_angle_enabled = false;
    }

    pub fn enable_max_angle(&mut self, max: i64)
        ensures
            *final(self) == (RevoluteJoint {
                max_angle_enabled: true,
                max_angle: max,
                ..*old(self)
            }),
    {
        self.max_angle_enabled = true;
        self.max_angle = max;
    }

    pub fn disable_max_angle(&mut self)
        ensures
            *final(self) == (RevoluteJoint { max_angle_enabled: false, ..*old(self) }),
    {
        self.max_angle_enabled = false;
    }
}

} // verus!
