//! Prismatic joint: translation along a fixed axis.
//!
//! The joint owns one generalized coordinate, the offset along its axis.
//! Its unit velocity response is the axis itself with no angular part, so
//! its Jacobian never depends on the current velocities and its bias
//! (Jacobian-derivative) terms vanish identically.

use vstd::prelude::*;

use crate::constraint::{BilateralGroundConstraint, ConstraintSet, IntegrationParameters,
    UnilateralGroundConstraint};
use crate::jacobian::{column_holds, untouched_outside_columns, write_column};
use crate::pose::{Frame, M3, Pose, PoseModel, Rotation, RotModel};
use crate::spatial::{SpatialVec, Velocity};
use crate::vec3::{in_i64, lemma_mul_i64_bound, V3, Vec3};

verus! {

/// A joint translating its child along `axis` by `offset`.
#[derive(Clone, Copy, Debug, PartialEq, Eq, Structural)]
pub struct PrismaticJoint {
    /// Motion axis, fixed in the parent link's frame.
    pub axis: Vec3,
    /// Generalized coordinate: the translation along `axis`.
    pub offset: i64,
    /// True while the linear motor drives the coordinate.
    pub motor_enabled: bool,
    /// Velocity the motor drives the coordinate toward.
    pub motor_target_vel: i64,
    /// True while the lower bound on `offset` is enforced.
    pub min_offset_enabled: bool,
    /// Lower bound on `offset`.
    pub min_offset: i64,
    /// True while the upper bound on `offset` is enforced.
    pub max_offset_enabled: bool,
    /// Upper bound on `offset`.
    pub max_offset: i64,
}

impl PrismaticJoint {
    /// Number of generalized coordinates the joint owns, constant for its
    /// lifetime.
    pub open spec fn ndofs_spec(self) -> int {
        1
    }

    /// The joint's generalized-coordinate vector.
    pub open spec fn coords_spec(self) -> Seq<int> {
        seq![self.offset as int]
    }

    /// Body-frame unit velocity response of the single dof: sliding along
    /// the axis, no angular part.
    pub open spec fn jacobian_spec(self) -> SpatialVec {
        SpatialVec { linear: self.axis@, angular: V3::zero() }
    }

    /// The Jacobian column expressed through the caller's frame.
    pub open spec fn mapped_jacobian_spec(self, m: M3) -> SpatialVec {
        SpatialVec { linear: m.mul(self.axis@), angular: V3::zero() }
    }

    /// Spatial velocity induced by generalized velocity `v`.
    pub open spec fn jacobian_mul_spec(self, v: int) -> SpatialVec {
        self.jacobian_spec().scale(v)
    }

    /// Bias (Jacobian-derivative) contribution: identically zero, because
    /// the axis is fixed in the parent frame and the response does not turn.
    pub open spec fn jacobian_dot_mul_spec(self, v: int) -> SpatialVec {
        SpatialVec::zero()
    }

    /// Transform from the child link's frame to the parent's at coordinate
    /// `offset`: `x |-> parent_shift + axis * offset + (x - body_shift)`.
    pub open spec fn body_to_parent_spec(self, parent_shift: V3, body_shift: V3) -> PoseModel {
        PoseModel {
            rot: RotModel::identity(),
            pre: body_shift.neg(),
            post: parent_shift.add(self.axis@.scale(self.offset as int)),
        }
    }

    /// Number of constraint rows the joint contributes this step: one for
    /// the motor if enabled, one per limit whose bound the coordinate is at
    /// or beyond.
    pub open spec fn nconstraints_spec(self) -> int {
        (if self.motor_enabled { 1int } else { 0int })
            + (if self.min_limit_active() { 1int } else { 0int })
            + (if self.max_limit_active() { 1int } else { 0int })
    }

    /// The lower limit is enforced and the coordinate is at or below it.
    pub open spec fn min_limit_active(self) -> bool {
        self.min_offset_enabled && self.offset <= self.min_offset
    }

    /// The upper limit is enforced and the coordinate is at or above it.
    pub open spec fn max_limit_active(self) -> bool {
        self.max_offset_enabled && self.offset >= self.max_offset
    }

    /// Creates the joint at coordinate `offset`, motor and limits disabled.
    pub fn new(axis: Vec3, offset: i64) -> (r: PrismaticJoint)
        ensures
            r == (PrismaticJoint {
                axis,
                offset,
                motor_enabled: false,
                motor_target_vel: 0,
                min_offset_enabled: false,
                min_offset: 0,
                max_offset_enabled: false,
                max_offset: 0,
            }),
    {
        PrismaticJoint {
            axis,
            offset,
            motor_enabled: false,
            motor_target_vel: 0,
            min_offset_enabled: false,
            min_offset: 0,
            max_offset_enabled: false,
            max_offset: 0,
        }
    }

    /// Current translation coordinate.
    pub fn offset(&self) -> (r: i64)
        ensures
            r == self.offset,
    {
        self.offset
    }

    /// The translation the joint currently applies: `axis * offset`.
    pub fn translation(&self) -> (r: Vec3)
        requires
            self.axis@.scale(self.offset as int).fits(),
        ensures
            r@ == self.axis@.scale(self.offset as int),
    {
        self.axis.scale(self.offset)
    }

    pub fn ndofs(&self) -> (n: usize)
        ensures
            n == self.ndofs_spec(),
    {
        1
    }

    pub fn body_to_parent(&self, parent_shift: &Vec3, body_shift: &Vec3) -> (r: Pose)
        requires
            body_shift@.neg().fits(),
            self.axis@.scale(self.offset as int).fits(),
            parent_shift@.add(self.axis@.scale(self.offset as int)).fits(),
        ensures
            r@ == self.body_to_parent_spec(parent_shift@, body_shift@),
    {
        Pose::from_parts(
            Rotation::identity(),
            body_shift.neg(),
            parent_shift.add(&self.axis.scale(self.offset)),
        )
    }

    /// Recomputes velocity-dependent Jacobian terms.  The prismatic response
    /// does not depend on the velocities, so the joint is left unchanged.
    pub fn update_jacobians(&mut self, body_shift: &Vec3, vels: &Vec<i64>)
        requires
            vels@.len() >= old(self).ndofs_spec(),
        ensures
            *final(self) == *old(self),
    {
    }

    /// Writes the joint's single Jacobian column at column `col`, expressed
    /// through `frame`; every slot outside that column is left unchanged.
    pub fn jacobian(&self, frame: &Frame, out: &mut Vec<i64>, col: usize)
        requires
            6 * col + 6 <= old(out).len(),
            frame@.mul(self.axis@).fits(),
        ensures
            untouched_outside_columns(old(out)@, final(out)@, col as int, 1),
            column_holds(final(out)@, col as int, self.mapped_jacobian_spec(frame@)),
    {
        let column = Velocity::new(frame.mul_vec(&self.axis), Vec3::zero());
        write_column(out, col, &column);
    }

    /// Writes the time derivative of the Jacobian column: identically zero.
    pub fn jacobian_dot(&self, frame: &Frame, out: &mut Vec<i64>, col: usize)
        requires
            6 * col + 6 <= old(out).len(),
        ensures
            untouched_outside_columns(old(out)@, final(out)@, col as int, 1),
            column_holds(final(out)@, col as int, SpatialVec::zero()),
    {
        write_column(out, col, &Velocity::zero());
    }

    /// Writes the directional derivative of the Jacobian time-derivative
    /// with respect to the joint velocities, at `vels`: identically zero.
    pub fn jacobian_dot_veldiff_mul_coordinates(
        &self,
        frame: &Frame,
        vels: &Vec<i64>,
        out: &mut Vec<i64>,
        col: usize,
    )
        requires
            vels@.len() >= self.ndofs_spec(),
            6 * col + 6 <= old(out).len(),
        ensures
            untouched_outside_columns(old(out)@, final(out)@, col as int, 1),
            column_holds(final(out)@, col as int, SpatialVec::zero()),
    {
        write_column(out, col, &Velocity::zero());
    }

    /// Spatial velocity induced on the child by generalized velocity
    /// `vels[0]`.
    pub fn jacobian_mul_coordinates(&self, vels: &Vec<i64>) -> (r: Velocity)
        requires
            vels@.len() >= self.ndofs_spec(),
            self.jacobian_mul_spec(vels@[0] as int).fits(),
        ensures
            r@ == self.jacobian_mul_spec(vels@[0] as int),
    {
        let v = vels[0];
        Velocity::new(self.axis.scale(v), Vec3::zero())
    }

    /// Bias acceleration induced on the child: identically zero for a
    /// prismatic joint.
    pub fn jacobian_dot_mul_coordinates(&self, vels: &Vec<i64>) -> (r: Velocity)
        requires
            vels@.len() >= self.ndofs_spec(),
        ensures
            r@ == self.jacobian_dot_mul_spec(vels@[0] as int),
            r@ == SpatialVec::zero(),
    {
        Velocity::zero()
    }

    /// Semi-implicit integration of the coordinate: the offset advances by
    /// `dt` times the already-solved velocity of this joint's dof slot.
    pub fn apply_displacement(&mut self, params: &IntegrationParameters, vels: &Vec<i64>)
        requires
            vels@.len() >= old(self).ndofs_spec(),
            in_i64(old(self).offset + params.dt * vels@[0]),
        ensures
            *final(self) == (PrismaticJoint {
                offset: (old(self).offset + params.dt * vels@[0]) as i64,
                ..*old(self)
            }),
    {
        let v = vels[0];
        proof {
            lemma_mul_i64_bound(params.dt as int, v as int);
        }
        let step: i128 = (params.dt as i128) * (v as i128);
        let new_offset: i128 = (self.offset as i128) + step;
        self.offset = new_offset as i64;
    }

    pub fn nconstraints(&self) -> (n: usize)
        ensures
            n == self.nconstraints_spec(),
    {
        let mut n: usize = 0;
        if self.motor_enabled {
            n += 1;
        }
        if self.min_offset_enabled && self.offset <= self.min_offset {
            n += 1;
        }
        if self.max_offset_enabled && self.offset >= self.max_offset {
            n += 1;
        }
        n
    }

    /// Motor rows this joint appends when building constraints, with the
    /// auxiliary Jacobian row counter standing at `gid`.
    pub open spec fn bilateral_rows_spec(
        self,
        assembly_id: usize,
        dof_id: usize,
        ext_vels: Seq<i64>,
        gid: int,
    ) -> Seq<BilateralGroundConstraint> {
        if self.motor_enabled {
            seq![
                BilateralGroundConstraint {
                    assembly_id,
                    jacobian_id: gid as usize,
                    dof_id,
                    rhs: (self.motor_target_vel - ext_vels[assembly_id + dof_id]) as i64,
                },
            ]
        } else {
            Seq::empty()
        }
    }

    /// Limit rows this joint appends when building constraints, following
    /// its motor rows.
    pub open spec fn unilateral_rows_spec(self, assembly_id: usize, dof_id: usize, gid: int)
        -> Seq<UnilateralGroundConstraint> {
        let min_gid = gid + if self.motor_enabled { 1int } else { 0int };
        let max_gid = min_gid + if self.min_limit_active() { 1int } else { 0int };
        (if self.min_limit_active() {
            seq![
                UnilateralGroundConstraint {
                    assembly_id,
                    jacobian_id: min_gid as usize,
                    dof_id,
                    rhs: (self.min_offset - self.offset) as i64,
                },
            ]
        } else {
            Seq::empty()
        }) + (if self.max_limit_active() {
            seq![
                UnilateralGroundConstraint {
                    assembly_id,
                    jacobian_id: max_gid as usize,
                    dof_id,
                    rhs: (self.offset - self.max_offset) as i64,
                },
            ]
        } else {
            Seq::empty()
        })
    }

    /// Coefficients written into the auxiliary Jacobian buffer, one per
    /// appended row: the constraint acts on the coordinate itself, upward
    /// for the motor and the lower limit, downward for the upper limit.
    pub open spec fn row_coeffs_spec(self) -> Seq<i64> {
        (if self.motor_enabled { seq![1i64] } else { Seq::empty() })
            + (if self.min_limit_active() { seq![1i64] } else { Seq::empty() })
            + (if self.max_limit_active() { seq![(-1) as i64] } else { Seq::empty() })
    }

    /// Appends this joint's motor and limit rows to the shared constraint
    /// set, writing one auxiliary Jacobian coefficient per row at the shared
    /// row counter and advancing it by the number of rows used.
    pub fn build_constraints(
        &self,
        params: &IntegrationParameters,
        assembly_id: usize,
        dof_id: usize,
        ext_vels: &Vec<i64>,
        ground_jacobian_id: &mut usize,
        jacobians: &mut Vec<i64>,
        constraints: &mut ConstraintSet,
    )
        requires
            assembly_id + dof_id < ext_vels.len(),
            *old(ground_jacobian_id) + self.nconstraints_spec() <= old(jacobians).len(),
            self.motor_enabled ==> in_i64(
                self.motor_target_vel - ext_vels@[assembly_id + dof_id],
            ),
            self.min_limit_active() ==> in_i64(self.min_offset - self.offset),
            self.max_limit_active() ==> in_i64(self.offset - self.max_offset),
        ensures
            *final(ground_jacobian_id) == *old(ground_jacobian_id) + self.nconstraints_spec(),
            final(jacobians)@.len() == old(jacobians)@.len(),
            forall|i: int|
                0 <= i < old(jacobians)@.len()
                    && !(*old(ground_jacobian_id) <= i
                        < *old(ground_jacobian_id) + self.nconstraints_spec())
                    ==> final(jacobians)@[i] == old(jacobians)@[i],
            final(jacobians)@.subrange(
                *old(ground_jacobian_id) as int,
                *old(ground_jacobian_id) + self.nconstraints_spec(),
            ) == self.row_coeffs_spec(),
            final(constraints).bilateral@ == old(constraints).bilateral@
                + self.bilateral_rows_spec(
                    assembly_id,
                    dof_id,
                    ext_vels@,
                    *old(ground_jacobian_id) as int,
                ),
            final(constraints).unilateral@ == old(constraints).unilateral@
                + self.unilateral_rows_spec(
                    assembly_id,
                    dof_id,
                    *old(ground_jacobian_id) as int,
                ),
    {
        let ghost g0: int = *ground_jacobian_id as int;
        if self.motor_enabled {
            let rhs = self.motor_target_vel - ext_vels[assembly_id + dof_id];
            jacobians.set(*ground_jacobian_id, 1);
            constraints.bilateral.push(BilateralGroundConstraint {
                assembly_id,
                jacobian_id: *ground_jacobian_id,
                dof_id,
                rhs,
            });
            *ground_jacobian_id += 1;
        }
        if self.min_offset_enabled && self.offset <= self.min_offset {
            let rhs = self.min_offset - self.offset;
            jacobians.set(*ground_jacobian_id, 1);
            constraints.unilateral.push(UnilateralGroundConstraint {
                assembly_id,
                jacobian_id: *ground_jacobian_id,
                dof_id,
                rhs,
            });
            *ground_jacobian_id += 1;
        }
        if self.max_offset_enabled && self.offset >= self.max_offset {
            let rhs = self.offset - self.max_offset;
            jacobians.set(*ground_jacobian_id, -1);
            constraints.unilateral.push(UnilateralGroundConstraint {
                assembly_id,
                jacobian_id: *ground_jacobian_id,
                dof_id,
                rhs,
            });
            *ground_jacobian_id += 1;
        }
        proof {
            assert(jacobians@.subrange(g0, g0 + self.nconstraints_spec())
                =~= self.row_coeffs_spec());
            assert(constraints.bilateral@ =~= old(constraints).bilateral@
                + self.bilateral_rows_spec(assembly_id, dof_id, ext_vels@, g0));
            assert(constraints.unilateral@ =~= old(constraints).unilateral@
                + self.unilateral_rows_spec(assembly_id, dof_id, g0));
        }
    }

    /// Turns the linear motor on, driving the coordinate toward velocity
    /// `target_vel`.
    pub fn set_desired_linear_motor_velocity(&mut self, target_vel: i64)
        ensures
            *final(self) == (PrismaticJoint {
                motor_enabled: true,
                motor_target_vel: target_vel,
                ..*old(self)
            }),
    {
        self.motor_enabled = true;
        self.motor_target_vel = target_vel;
    }

    pub fn disable_linear_motor(&mut self)
        ensures
            *final(self) == (PrismaticJoint { motor_enabled: false, ..*old(self) }),
    {
        self.motor_enabled = false;
    }

    pub fn enable_min_offset(&mut self, min: i64)
        ensures
            *final(self) == (PrismaticJoint {
                min_offset_enabled: true,
                min_offset: min,
                ..*old(self)
            }),
    {
        self.min_offset_enabled = true;
        self.min_offset = min;
    }

    pub fn disable_min_offset(&mut self)
        ensures
            *final(self) == (PrismaticJoint { min_offset_enabled: false, ..*old(self) }),
    {
        self.min_offset_enabled = false;
    }

    pub fn enable_max_offset(&mut self, max: i64)
        ensures
            *final(self) == (PrismaticJoint {
                max_offset_enabled: true,
                max_offset: max,
                ..*old(self)
            }),
    {
        self.max_offset_enabled = true;
        self.max_offset = max;
    }

    pub fn disable_max_offset(&mut self)
        ensures
            *final(self) == (PrismaticJoint { max_offset_enabled: false, ..*old(self) }),
    {
        self.max_offset_enabled = false;
    }
}

} // verus!
