use multibody_joints::pin_slot::PinSlotJoint;
use multibody_joints::pose::{Frame, Pose};
use multibody_joints::prismatic::PrismaticJoint;
use multibody_joints::revolute::RevoluteJoint;
use multibody_joints::spatial::Velocity;
use multibody_joints::vec3::Vec3;

use multibody_joints::constraint::IntegrationParameters;

// The generalized coordinates are exact integers in the caller's own units;
// this value stands for a quarter turn in the angle unit used throughout.
const QUARTER_TURN: i64 = 1_570_796;

fn pin_slot_example() -> PinSlotJoint {
    PinSlotJoint::new(
        Vec3::new(1, 0, 0),
        Vec3::new(0, 0, 1),
        2,
        QUARTER_TURN,
    )
}

#[test]
fn composite_ndofs_is_sum_of_sub_joints() {
    let j = pin_slot_example();
    assert_eq!(j.prism.ndofs() + j.revo.ndofs(), j.ndofs());
    assert_eq!(j.ndofs(), 2);
}

#[test]
fn vec3_cross_and_dot_exact_values() {
    let x = Vec3::new(1, 0, 0);
    let y = Vec3::new(0, 1, 0);
    assert_eq!(x.cross(&y), Vec3::new(0, 0, 1));
    assert_eq!(y.cross(&x), Vec3::new(0, 0, -1));
    assert_eq!(x.dot(&y), 0);
    let a = Vec3::new(2, -3, 4);
    let b = Vec3::new(5, 7, -1);
    assert_eq!(a.dot(&b), 2 * 5 - 3 * 7 - 4);
    assert_eq!(a.add(&b), Vec3::new(7, 4, 3));
    assert_eq!(a.scale(-2), Vec3::new(-4, 6, -8));
}

#[test]
fn jacobian_writes_only_its_own_columns() {
    let mut j = pin_slot_example();
    let vels: Vec<i64> = vec![0, 0];
    j.update_jacobians(&Vec3::new(0, 1, 0), &vels);
    let frame = Frame::identity();

    // Columns 0 and 1 belong to the joint; every other slot holds a
    // sentinel that must survive the write untouched.
    let mut out: Vec<i64> = vec![77; 6 * 4];
    j.jacobian(&frame, &mut out, 0);
    for i in 12..24 {
        assert_eq!(out[i], 77);
    }

    // Writing one sub-joint's column alone must not change the other
    // sub-joint's column range.
    let mut out2: Vec<i64> = vec![77; 6 * 2];
    j.prism.jacobian(&frame, &mut out2, 0);
    for i in 6..12 {
        assert_eq!(out2[i], 77);
    }
    let mut out3: Vec<i64> = vec![77; 6 * 2];
    j.revo.jacobian(&frame, &mut out3, 1);
    for i in 0..6 {
        assert_eq!(out3[i], 77);
    }
}

#[test]
fn prismatic_jacobian_column_is_axis() {
    let j = PrismaticJoint::new(Vec3::new(1, 0, 0), 5);
    let mut out: Vec<i64> = vec![9; 6];
    j.jacobian(&Frame::identity(), &mut out, 0);
    assert_eq!(out, vec![1, 0, 0, 0, 0, 0]);
}

#[test]
fn revolute_update_jacobians_exact_values() {
    let mut j = RevoluteJoint::new(Vec3::new(0, 0, 1), 0);
    let vels: Vec<i64> = vec![2];
    j.update_jacobians(&Vec3::new(1, 0, 0), &vels);
    // Linear part: axis x (-body_shift) = (0,0,1) x (-1,0,0) = (0,-1,0).
    assert_eq!(j.jac.linear, Vec3::new(0, -1, 0));
    assert_eq!(j.jac.angular, Vec3::new(0, 0, 1));
    // Derivative: (axis * 2) x (0,-1,0) = (0,0,2) x (0,-1,0) = (2,0,0).
    assert_eq!(j.jac_dot.linear, Vec3::new(2, 0, 0));
    assert_eq!(j.jac_dot.angular, Vec3::new(0, 0, 0));
}

#[test]
fn jacobian_mul_coordinates_is_linear() {
    let mut j = pin_slot_example();
    let vels: Vec<i64> = vec![4, 9];
    j.update_jacobians(&Vec3::new(3, -2, 5), &vels);

    let v1: Vec<i64> = vec![2, 3];
    let v2: Vec<i64> = vec![5, -1];
    let sum: Vec<i64> = vec![7, 2];
    let lhs: Velocity = j.jacobian_mul_coordinates(&v1).add(&j.jacobian_mul_coordinates(&v2));
    let rhs: Velocity = j.jacobian_mul_coordinates(&sum);
    assert_eq!(lhs, rhs);
}

#[test]
fn zero_velocity_displacement_changes_nothing() {
    let mut j = pin_slot_example();
    let before = j;
    let params = IntegrationParameters::new(17);
    let vels: Vec<i64> = vec![0, 0];
    j.apply_displacement(&params, &vels);
    assert_eq!(j, before);
    assert_eq!(j.offset(), 2);
    assert_eq!(j.angle(), QUARTER_TURN);
}

#[test]
fn body_to_parent_is_translation_after_rotation() {
    let j = pin_slot_example();
    let zero = Vec3::new(0, 0, 0);

    // The composite transform equals the product of the two primitive
    // joints' own transforms, translation applied after rotation.
    let composite: Pose = j.body_to_parent(&zero, &zero);
    let translate: Pose = j.prism.body_to_parent(&zero, &zero);
    let rotate: Pose = j.revo.body_to_parent(&zero, &zero);
    assert_eq!(composite, translate.compose(&rotate));

    // The rotation part is the revolute one, and the slide lands in the
    // parent-side offset: the composition order is translation o rotation.
    assert_eq!(composite.rot.axis, Vec3::new(0, 0, 1));
    assert_eq!(composite.rot.angle, QUARTER_TURN);
    assert_eq!(composite.post, Vec3::new(2, 0, 0));

    // With nonzero shifts the same identity holds against the composed
    // parts.
    let ps = Vec3::new(4, 5, 6);
    let bs = Vec3::new(-1, 2, 0);
    let composite2: Pose = j.body_to_parent(&ps, &bs);
    let translation_only: Pose = Pose::translation(&j.prism.translation());
    assert_eq!(composite2, translation_only.compose(&j.revo.body_to_parent(&ps, &bs)));
}

#[test]
fn bias_term_equals_revolute_contribution() {
    let mut j = pin_slot_example();
    let vels: Vec<i64> = vec![3, 2];
    j.update_jacobians(&Vec3::new(1, 0, 0), &vels);
    let bias: Velocity = j.jacobian_dot_mul_coordinates(&vels);
    let sub: Vec<i64> = vec![2];
    assert_eq!(bias, j.revo.jacobian_dot_mul_coordinates(&sub));
    // The prismatic contribution is identically zero.
    let prism_bias: Velocity = j.prism.jacobian_dot_mul_coordinates(&vels);
    assert_eq!(prism_bias, Velocity::zero());
}

#[test]
fn nconstraints_sums_active_motors_and_limits() {
    let mut j = pin_slot_example();
    assert_eq!(j.nconstraints(), 0);
    j.set_desired_angular_motor_velocity(10);
    assert_eq!(j.nconstraints(), 1);
    assert_eq!(
        j.nconstraints(),
        j.prism.nconstraints() + j.revo.nconstraints()
    );
    j.set_desired_linear_motor_velocity(-4);
    assert_eq!(j.nconstraints(), 2);
    j.disable_angular_motor();
    assert_eq!(j.nconstraints(), 1);
    j.disable_linear_motor();
    j.enable_min_angle(QUARTER_TURN);
    assert_eq!(j.nconstraints(), 1);
    j.disable_min_angle();
    j.enable_max_offset(1);
    assert_eq!(j.nconstraints(), 1);
    j.disable_max_offset();
    j.enable_min_offset(0);
    j.enable_max_angle(QUARTER_TURN + 1);
    assert_eq!(j.nconstraints(), 0);
    j.disable_min_offset();
    j.disable_max_angle();
    assert_eq!(j.nconstraints(), 0);
}

#[test]
fn limits_count_only_when_coordinate_reaches_bound() {
    let mut j = PrismaticJoint::new(Vec3::new(1, 0, 0), 5);
    j.enable_max_offset(10);
    assert_eq!(j.nconstraints(), 0);
    let params = IntegrationParameters::new(1);
    let vels: Vec<i64> = vec![5];
    j.apply_displacement(&params, &vels);
    assert_eq!(j.offset(), 10);
    assert_eq!(j.nconstraints(), 1);
    j.enable_min_offset(10);
    assert_eq!(j.nconstraints(), 2);
    j.disable_max_offset();
    assert_eq!(j.nconstraints(), 1);
}

#[test]
fn end_to_end_displacement_moves_only_the_slide() {
    let mut j = pin_slot_example();
    let params = IntegrationParameters::new(1);
    let vels: Vec<i64> = vec![1, 0];
    j.apply_displacement(&params, &vels);
    assert_eq!(j.offset(), 3);
    assert_eq!(j.angle(), QUARTER_TURN);
}

#[test]
fn displacement_scales_with_timestep_and_velocity() {
    let mut j = PrismaticJoint::new(Vec3::new(0, 1, 0), -7);
    let params = IntegrationParameters::new(3);
    let vels: Vec<i64> = vec![-2];
    j.apply_displacement(&params, &vels);
    assert_eq!(j.offset(), -7 + 3 * -2);
}
