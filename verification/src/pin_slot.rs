//! Pin-slot joint: a prismatic and a revolute joint composed into one
//! two-dof joint.
//!
//! Dof slot 0 is the prismatic offset, slot 1 is the revolute angle; this
//! ordering is fixed at construction and every slicing below respects it.
//! The composite implements the same contract as its sub-joints by
//! delegation: velocity vectors are split so each sub-joint only sees its
//! own slot, and Jacobian columns are written into disjoint sub-ranges of
//! the shared buffer.  Its transform is the ordered composition
//! translation-by-offset after rotation-by-angle.

use vstd::prelude::*;

use crate::constraint::{BilateralGroundConstraint, ConstraintSet, IntegrationParameters,
    UnilateralGroundConstraint};
use crate::jacobian::{column_holds, untouched_outside_columns};
use crate::pose::{Frame, M3, Pose, PoseModel};
use crate::prismatic::PrismaticJoint;
use crate::revolute::RevoluteJoint;
use crate::spatial::{SpatialVec, Velocity};
use crate::vec3::{in_i64, V3, Vec3};

verus! {

/// A prismatic and a revolute joint owned by value and driven as one joint.
#[derive(Clone, Copy, Debug, PartialEq, Eq, Structural)]
pub struct PinSlotJoint {
    /// Sub-joint owning dof slot 0: translation along its axis.
    pub prism: PrismaticJoint,
    /// Sub-joint owning dof slot 1: rotation about its axis.
    pub revo: RevoluteJoint,
}

impl PinSlotJoint {
    /// Number of generalized coordinates: the sum over the sub-joints.
    pub open spec fn ndofs_spec(self) -> int {
        self.prism.ndofs_spec() + self.revo.ndofs_spec()
    }

    /// The generalized-coordinate vector: the sub-joint vectors
    /// concatenated in construction order.
    pub open spec fn coords_spec(self) -> Seq<int> {
        self.prism.coords_spec() + self.revo.coords_spec()
    }

    /// Transform from the child link's frame to the parent's: the ordered
    /// composition of the prismatic translation applied after the revolute
    /// transform.  The order is part of this joint's definition.
    pub open spec fn body_to_parent_spec(self, parent_shift: V3, body_shift: V3) -> PoseModel {
        PoseModel::translation(self.prism.axis@.scale(self.prism.offset as int)).compose(
            self.revo.body_to_parent_spec(parent_shift, body_shift),
        )
    }

    /// Spatial velocity induced by generalized velocities `(v0, v1)`: the
    /// sum of the sub-joint contributions, a consequence of the Jacobian
    /// being block-structured.
    pub open spec fn jacobian_mul_spec(self, v0: int, v1: int) -> SpatialVec {
        self.prism.jacobian_mul_spec(v0).add(self.revo.jacobian_mul_spec(v1))
    }

    /// Bias acceleration induced by generalized velocities `(v0, v1)`: the
    /// sum of the sub-joint contributions.
    pub open spec fn jacobian_dot_mul_spec(self, v0: int, v1: int) -> SpatialVec {
        self.prism.jacobian_dot_mul_spec(v0).add(self.revo.jacobian_dot_mul_spec(v1))
    }

    /// The joint after one integration step of size `dt` at solved
    /// generalized velocities `(v0, v1)`.
    pub open spec fn displaced_spec(self, dt: int, v0: int, v1: int) -> PinSlotJoint {
        PinSlotJoint {
            prism: (PrismaticJoint {
                offset: (self.prism.offset + dt * v0) as i64,
                ..self.prism
            }),
            revo: (RevoluteJoint { angle: (self.revo.angle + dt * v1) as i64, ..self.revo }),
        }
    }

    /// Number of constraint rows: the sum over the sub-joints.
    pub open spec fn nconstraints_spec(self) -> int {
        self.prism.nconstraints_spec() + self.revo.nconstraints_spec()
    }

    /// Creates the joint with slide axis `axis_v` at coordinate `position`
    /// and rotation axis `axis_w` at coordinate `angle`, motors and limits
    /// disabled.
    pub fn new(axis_v: Vec3, axis_w: Vec3, position: i64, angle: i64) -> (r: PinSlotJoint)
        ensures
            r.prism == (PrismaticJoint {
                axis: axis_v,
                offset: position,
                motor_enabled: false,
                motor_target_vel: 0,
                min_offset_enabled: false,
                min_offset: 0,
                max_offset_enabled: false,
                max_offset: 0,
            }),
            r.revo == (RevoluteJoint {
                axis: axis_w,
                angle,
                jac: r.revo.jac,
                jac_dot: r.revo.jac_dot,
                motor_enabled: false,
                motor_target_vel: 0,
                min_angle_enabled: false,
                min_angle: 0,
                max_angle_enabled: false,
                max_angle: 0,
            }),
            r.revo.jac@ == (SpatialVec { linear: V3::zero(), angular: axis_w@ }),
            r.revo.jac_dot@ == SpatialVec::zero(),
            r.nconstraints_spec() == 0,
            r.coords_spec() == seq![position as int, angle as int],
    {
        let r = PinSlotJoint {
            prism: PrismaticJoint::new(axis_v, position),
            revo: RevoluteJoint::new(axis_w, angle),
        };
        proof {
            assert(r.coords_spec() =~= seq![position as int, angle as int]);
        }
        r
    }

    /// Current translation coordinate of the prismatic sub-joint.
    pub fn offset(&self) -> (r: i64)
        ensures
            r == self.prism.offset,
    {
        self.prism.offset()
    }

    /// Current rotation coordinate of the revolute sub-joint.
    pub fn angle(&self) -> (r: i64)
        ensures
            r == self.revo.angle,
    {
        self.revo.angle()
    }

    /// Number of generalized coordinates: always two, the sum of the
    /// sub-joint counts.
    pub fn ndofs(&self) -> (n: usize)
        ensures
            n == self.ndofs_spec(),
            n == self.prism.ndofs_spec() + self.revo.ndofs_spec(),
            n == 2,
    {
        2
    }

    /// Transform from the child link's frame to the parent's: the prismatic
    /// translation composed after the revolute transform, in that fixed
    /// order.
    pub fn body_to_parent(&self, parent_shift: &Vec3, body_shift: &Vec3) -> (r: Pose)
        requires
            body_shift@.neg().fits(),
            self.prism.axis@.scale(self.prism.offset as int).fits(),
            self.prism.axis@.scale(self.prism.offset as int).add(parent_shift@).fits(),
        ensures
            r@ == self.body_to_parent_spec(parent_shift@, body_shift@),
    {
        let translation = Pose::translation(&self.prism.translation());
        let rotation = self.revo.body_to_parent(parent_shift, body_shift);
        translation.compose(&rotation)
    }

    /// Refreshes both sub-joints' velocity-dependent Jacobian terms; each
    /// sub-joint is shown only the velocity of its own dof slot.
    pub fn update_jacobians(&mut self, body_shift: &Vec3, vels: &Vec<i64>)
        requires
            vels@.len() >= old(self).ndofs_spec(),
            body_shift@.neg().fits(),
            old(self).revo.updated_jacobian_spec(body_shift@).fits(),
            old(self).revo.axis@.scale(vels@[1] as int).fits(),
            old(self).revo.updated_jacobian_dot_spec(body_shift@, vels@[1] as int).fits(),
        ensures
            final(self).prism == old(self).prism,
            final(self).revo.jac@ == old(self).revo.updated_jacobian_spec(body_shift@),
            final(self).revo.jac_dot@ == old(self).revo.updated_jacobian_dot_spec(
                body_shift@,
                vels@[1] as int,
            ),
            final(self).revo == (RevoluteJoint {
                jac: final(self).revo.jac,
                jac_dot: final(self).revo.jac_dot,
                ..old(self).revo
            }),
    {
        self.prism.update_jacobians(body_shift, vels);
        let sub_vels = vec![vels[1]];
        self.revo.update_jacobians(body_shift, &sub_vels);
    }

    /// Writes the two Jacobian columns at columns `col` and `col + 1`:
    /// each sub-joint writes its own disjoint column, and every slot
    /// outside the two columns is left unchanged.
    pub fn jacobian(&self, frame: &Frame, out: &mut Vec<i64>, col: usize)
        requires
            6 * col + 12 <= old(out).len(),
            frame@.mul(self.prism.axis@).fits(),
            self.revo.mapped_jacobian_spec(frame@).fits(),
        ensures
            untouched_outside_columns(old(out)@, final(out)@, col as int, 2),
            column_holds(final(out)@, col as int, self.prism.mapped_jacobian_spec(frame@)),
            column_holds(final(out)@, col as int + 1, self.revo.mapped_jacobian_spec(frame@)),
    {
        self.prism.jacobian(frame, out, col);
        self.revo.jacobian(frame, out, col + 1);
    }

    /// Writes the two Jacobian-derivative columns, same column discipline.
    pub fn jacobian_dot(&self, frame: &Frame, out: &mut Vec<i64>, col: usize)
        requires
            6 * col + 12 <= old(out).len(),
            self.revo.mapped_jacobian_dot_spec(frame@).fits(),
        ensures
            untouched_outside_columns(old(out)@, final(out)@, col as int, 2),
            column_holds(final(out)@, col as int, SpatialVec::zero()),
            column_holds(final(out)@, col as int + 1, self.revo.mapped_jacobian_dot_spec(frame@)),
    {
        self.prism.jacobian_dot(frame, out, col);
        self.revo.jacobian_dot(frame, out, col + 1);
    }

    /// Writes the two columns of the velocity-directional derivative of the
    /// Jacobian derivative, each sub-joint seeing its own velocity slot.
    pub fn jacobian_dot_veldiff_mul_coordinates(
        &self,
        frame: &Frame,
        vels: &Vec<i64>,
        out: &mut Vec<i64>,
        col: usize,
    )
        requires
            vels@.len() >= self.ndofs_spec(),
            6 * col + 12 <= old(out).len(),
            self.revo.axis@.cross(self.revo.jac@.linear).fits(),
            self.revo.veldiff_mul_spec(vels@[1] as int).fits(),
            frame@.mul(self.revo.veldiff_mul_spec(vels@[1] as int).linear).fits(),
        ensures
            untouched_outside_columns(old(out)@, final(out)@, col as int, 2),
            column_holds(final(out)@, col as int, SpatialVec::zero()),
            column_holds(final(out)@, col as int + 1, (SpatialVec {
                linear: frame@.mul(self.revo.veldiff_mul_spec(vels@[1] as int).linear),
                angular: V3::zero(),
            })),
    {
        self.prism.jacobian_dot_veldiff_mul_coordinates(frame, vels, out, col);
        let sub_vels = vec![vels[1]];
        self.revo.jacobian_dot_veldiff_mul_coordinates(frame, &sub_vels, out, col + 1);
    }

    /// Spatial velocity induced on the child by generalized velocities
    /// `(vels[0], vels[1])`: the sum of the sub-joint contributions.
    pub fn jacobian_mul_coordinates(&self, vels: &Vec<i64>) -> (r: Velocity)
        requires
            vels@.len() >= self.ndofs_spec(),
            self.prism.jacobian_mul_spec(vels@[0] as int).fits(),
            self.revo.jacobian_mul_spec(vels@[1] as int).fits(),
            self.jacobian_mul_spec(vels@[0] as int, vels@[1] as int).fits(),
        ensures
            r@ == self.jacobian_mul_spec(vels@[0] as int, vels@[1] as int),
    {
        let prism_part = self.prism.jacobian_mul_coordinates(vels);
        let sub_vels = vec![vels[1]];
        let revo_part = self.revo.jacobian_mul_coordinates(&sub_vels);
        prism_part.add(&revo_part)
    }

    /// Bias acceleration induced on the child.  The prismatic sub-joint's
    /// contribution is identically zero, so only the revolute term is
    /// computed; the contract states the full sum, so the shortcut is
    /// proved, not assumed.
    pub fn jacobian_dot_mul_coordinates(&self, vels: &Vec<i64>) -> (r: Velocity)
        requires
            vels@.len() >= self.ndofs_spec(),
            self.revo.jacobian_dot_mul_spec(vels@[1] as int).fits(),
        ensures
            r@ == self.jacobian_dot_mul_spec(vels@[0] as int, vels@[1] as int),
            r@ == self.revo.jacobian_dot_mul_spec(vels@[1] as int),
    {
        let sub_vels = vec![vels[1]];
        self.revo.jacobian_dot_mul_coordinates(&sub_vels)
    }

    /// Semi-implicit integration of both coordinates: each advances by `dt`
    /// times the solved velocity of its own dof slot.
    pub fn apply_displacement(&mut self, params: &IntegrationParameters, vels: &Vec<i64>)
        requires
            vels@.len() >= old(self).ndofs_spec(),
            in_i64(old(self).prism.offset + params.dt * vels@[0]),
            in_i64(old(self).revo.angle + params.dt * vels@[1]),
        ensures
            *final(self) == old(self).displaced_spec(
                params.dt as int,
                vels@[0] as int,
                vels@[1] as int,
            ),
    {
        self.prism.apply_displacement(params, vels);
        let sub_vels = vec![vels[1]];
        self.revo.apply_displacement(params, &sub_vels);
    }

    /// Number of constraint rows this step: the sum of the sub-joints'
    /// active motor and limit counts.
    pub fn nconstraints(&self) -> (n: usize)
        ensures
            n == self.nconstraints_spec(),
            n == self.prism.nconstraints_spec() + self.revo.nconstraints_spec(),
    {
        self.prism.nconstraints() + self.revo.nconstraints()
    }

    /// Appends both sub-joints' constraint rows: the prismatic sub-joint at
    /// dof offset `dof_id`, the revolute one at `dof_id + 1`, sharing the
    /// same row counter so row allocation stays globally consistent.
    #[verifier::rlimit(50)]
    #[verifier::spinoff_prover]
    pub fn build_constraints(
        &self,
        params: &IntegrationParameters,
        assembly_id: usize,
        dof_id: usize,
        ext_vels: &Vec<i64>,
        ground_jacobian_id: &mut usize,
        jacobians: &mut Vec<i64>,
        constraints: &mut ConstraintSet,
    )
        requires
            assembly_id + dof_id + 1 < ext_vels.len(),
            *old(ground_jacobian_id) + self.nconstraints_spec() <= old(jacobians).len(),
            self.prism.motor_enabled ==> in_i64(
                self.prism.motor_target_vel - ext_vels@[assembly_id + dof_id],
            ),
            self.prism.min_limit_active() ==> in_i64(self.prism.min_offset - self.prism.offset),
            self.prism.max_limit_active() ==> in_i64(self.prism.offset - self.prism.max_offset),
            self.revo.motor_enabled ==> in_i64(
                self.revo.motor_target_vel - ext_vels@[assembly_id + dof_id + 1],
            ),
            self.revo.min_limit_active() ==> in_i64(self.revo.min_angle - self.revo.angle),
            self.revo.max_limit_active() ==> in_i64(self.revo.angle - self.revo.max_angle),
        ensures
            *final(ground_jacobian_id) == *old(ground_jacobian_id) + self.nconstraints_spec(),
            final(jacobians)@.len() == old(jacobians)@.len(),
            forall|i: int|
                0 <= i < old(jacobians)@.len()
                    && !(*old(ground_jacobian_id) <= i
                        < *old(ground_jacobian_id) + self.nconstraints_spec())
                    ==> final(jacobians)@[i] == old(jacobians)@[i],
            final(jacobians)@.subrange(
                *old(ground_jacobian_id) as int,
                *old(ground_jacobian_id) + self.nconstraints_spec(),
            ) == self.prism.row_coeffs_spec() + self.revo.row_coeffs_spec(),
            final(constraints).bilateral@ == old(constraints).bilateral@
                + self.prism.bilateral_rows_spec(
                    assembly_id,
                    dof_id,
                    ext_vels@,
                    *old(ground_jacobian_id) as int,
                )
                + self.revo.bilateral_rows_spec(
                    assembly_id,
                    (dof_id + 1) as usize,
                    ext_vels@,
                    *old(ground_jacobian_id) + self.prism.nconstraints_spec(),
                ),
            final(constraints).unilateral@ == old(constraints).unilateral@
                + self.prism.unilateral_rows_spec(
                    assembly_id,
                    dof_id,
                    *old(ground_jacobian_id) as int,
                )
                + self.revo.unilateral_rows_spec(
                    assembly_id,
                    (dof_id + 1) as usize,
                    *old(ground_jacobian_id) + self.prism.nconstraints_spec(),
                ),
    {
        let ghost g0: int = *ground_jacobian_id as int;
        self.prism.build_constraints(
            params,
            assembly_id,
            dof_id,
            ext_vels,
            ground_jacobian_id,
            jacobians,
            constraints,
        );
        let ghost g1: int = *ground_jacobian_id as int;
        let ghost jac1: Seq<i64> = jacobians@;
        let ghost bil1: Seq<BilateralGroundConstraint> = constraints.bilateral@;
        let ghost uni1: Seq<UnilateralGroundConstraint> = constraints.unilateral@;
        self.revo.build_constraints(
            params,
            assembly_id,
            dof_id + 1,
            ext_vels,
            ground_jacobian_id,
            jacobians,
            constraints,
        );
        proof {
            assert(g1 == g0 + self.prism.nconstraints_spec());
            assert(constraints.bilateral@ =~= old(constraints).bilateral@
                + self.prism.bilateral_rows_spec(assembly_id, dof_id, ext_vels@, g0)
                + self.revo.bilateral_rows_spec(assembly_id, (dof_id + 1) as usize, ext_vels@, g1));
            assert(constraints.unilateral@ =~= old(constraints).unilateral@
                + self.prism.unilateral_rows_spec(assembly_id, dof_id, g0)
                + self.revo.unilateral_rows_spec(assembly_id, (dof_id + 1) as usize, g1));
            assert(jac1.subrange(g0, g1) == self.prism.row_coeffs_spec());
            assert(jacobians@.subrange(g1, g1 + self.revo.nconstraints_spec())
                == self.revo.row_coeffs_spec());
            assert forall|i: int| g0 <= i < g1 implies jacobians@[i] == jac1[i] by {}
            assert(jacobians@.subrange(g0, g1) =~= jac1.subrange(g0, g1));
            assert(jacobians@.subrange(g0, g0 + self.nconstraints_spec())
                =~= jacobians@.subrange(g0, g1)
                    + jacobians@.subrange(g1, g1 + self.revo.nconstraints_spec()));
        }
    }
    /// Turns the linear motor of the prismatic sub-joint on, driving the
    /// offset toward velocity `target_vel`.
    pub fn set_desired_linear_motor_velocity(&mut self, target_vel: i64)
        ensures
            *final(self) == (PinSlotJoint {
                prism: (PrismaticJoint {
                    motor_enabled: true,
                    motor_target_vel: target_vel,
                    ..old(self).prism
                }),
                ..*old(self)
            }),
    {
        self.prism.set_desired_linear_motor_velocity(target_vel);
    }

    pub fn disable_linear_motor(&mut self)
        ensures
            *final(self) == (PinSlotJoint {
                prism: (PrismaticJoint { motor_enabled: false, ..old(self).prism }),
                ..*old(self)
            }),
    {
        self.prism.disable_linear_motor();
    }

    pub fn enable_min_offset(&mut self, min: i64)
        ensures
            *final(self) == (PinSlotJoint {
                prism: (PrismaticJoint {
                    min_offset_enabled: true,
                    min_offset: min,
                    ..old(self).prism
                }),
                ..*old(self)
            }),
    {
        self.prism.enable_min_offset(min);
    }

    pub fn disable_min_offset(&mut self)
        ensures
            *final(self) == (PinSlotJoint {
                prism: (PrismaticJoint { min_offset_enabled: false, ..old(self).prism }),
                ..*old(self)
            }),
    {
        self.prism.disable_min_offset();
    }

    pub fn enable_max_offset(&mut self, max: i64)
        ensures
            *final(self) == (PinSlotJoint {
                prism: (PrismaticJoint {
                    max_offset_enabled: true,
                    max_offset: max,
                    ..old(self).prism
                }),
                ..*old(self)
            }),
    {
        self.prism.enable_max_offset(max);
    }

    pub fn disable_max_offset(&mut self)
        ensures
            *final(self) == (PinSlotJoint {
                prism: (PrismaticJoint { max_offset_enabled: false, ..old(self).prism }),
                ..*old(self)
            }),
    {
        self.prism.disable_max_offset();
    }

    /// Turns the angular motor of the revolute sub-joint on, driving the
    /// angle toward velocity `target_vel`.
    pub fn set_desired_angular_motor_velocity(&mut self, target_vel: i64)
        ensures
            *final(self) == (PinSlotJoint {
                revo: (RevoluteJoint {
                    motor_enabled: true,
                    motor_target_vel: target_vel,
                    ..old(self).revo
                }),
                ..*old(self)
            }),
    {
        self.revo.set_desired_angular_motor_velocity(target_vel);
    }

    pub fn disable_angular_motor(&mut self)
        ensures
            *final(self) == (PinSlotJoint {
                revo: (RevoluteJoint { motor_enabled: false, ..old(self).revo }),
                ..*old(self)
            }),
    {
        self.revo.disable_angular_motor();
    }

    pub fn enable_min_angle(&mut self, min: i64)
        ensures
            *final(self) == (PinSlotJoint {
                revo: (RevoluteJoint {
                    min_angle_enabled: true,
                    min_angle: min,
                    ..old(self).revo
                }),
                ..*old(self)
            }),
    {
        self.revo.enable_min_angle(min);
    }

    pub fn disable_min_angle(&mut self)
        ensures
            *final(self) == (PinSlotJoint {
                revo: (RevoluteJoint { min_angle_enabled: false, ..old(self).revo }),
                ..*old(self)
            }),
    {
        self.revo.disable_min_angle();
    }

    pub fn enable_max_angle(&mut self, max: i64)
        ensures
            *final(self) == (PinSlotJoint {
                revo: (RevoluteJoint {
                    max_angle_enabled: true,
                    max_angle: max,
                    ..old(self).revo
                }),
                ..*old(self)
            }),
    {
        self.revo.enable_max_angle(max);
    }

    pub fn disable_max_angle(&mut self)
        ensures
            *final(self) == (PinSlotJoint {
                revo: (RevoluteJoint { max_angle_enabled: false, ..old(self).revo }),
                ..*old(self)
            }),
    {
        self.revo.disable_max_angle();
    }
}

/// Linearity of the velocity map: for any pin-slot joint, the spatial
/// velocity induced by the sum of two generalized-velocity vectors is the
/// sum of the spatial velocities induced by each, exactly.
pub proof fn lemma_jacobian_mul_linear(j: PinSlotJoint, a0: int, a1: int, b0: int, b1: int)
    ensures
        j.jacobian_mul_spec(a0 + b0, a1 + b1) == j.jacobian_mul_spec(a0, a1).add(
            j.jacobian_mul_spec(b0, b1),
        ),
{
    crate::vec3::lemma_scale_add(j.prism.axis@, a0, b0);
    crate::vec3::lemma_scale_add(V3::zero(), a0, b0);
    crate::vec3::lemma_scale_add(j.revo.jac@.linear, a1, b1);
    crate::vec3::lemma_scale_add(j.revo.jac@.angular, a1, b1);
}

/// Integration with an all-zero velocity vector leaves every generalized
/// coordinate, and the whole joint state, unchanged.
pub proof fn lemma_zero_displacement_fixpoint(j: PinSlotJoint, dt: int)
    ensures
        j.displaced_spec(dt, 0, 0) == j,
{
}

/// Composition order: with the shifts folded out, the composite transform
/// is exactly the product of the two primitive joints' own transforms —
/// the translation along the slide axis applied after the rotation about
/// the pin axis, never the other way around.
pub proof fn lemma_composition_order(j: PinSlotJoint)
    ensures
        j.body_to_parent_spec(V3::zero(), V3::zero()) == j.prism.body_to_parent_spec(
            V3::zero(),
            V3::zero(),
        ).compose(j.revo.body_to_parent_spec(V3::zero(), V3::zero())),
{
}

/// The optimized bias term of the pin-slot joint equals the full sum of its
/// sub-joints' bias terms: the prismatic contribution vanishes identically,
/// so omitting it loses nothing.
pub proof fn lemma_bias_full_sum(j: PinSlotJoint, v0: int, v1: int)
    ensures
        j.jacobian_dot_mul_spec(v0, v1) == j.revo.jacobian_dot_mul_spec(v1),
        j.prism.jacobian_dot_mul_spec(v0) == SpatialVec::zero(),
{
}

} // verus!

