use multibody_joints::pin_slot::PinSlotJoint;
use multibody_joints::pose::{Frame, Pose, Rotation};
use multibody_joints::prismatic::PrismaticJoint;
use multibody_joints::revolute::RevoluteJoint;
use multibody_joints::vec3::Vec3;

#[test]
fn frame_applies_its_matrix_rowwise() {
    // A quarter turn about the vertical axis as a concrete frame.
    let frame = Frame::new(Vec3::new(0, -1, 0), Vec3::new(1, 0, 0), Vec3::new(0, 0, 1));
    let v = Vec3::new(3, 4, 5);
    assert_eq!(frame.mul_vec(&v), Vec3::new(-4, 3, 5));
    assert_eq!(Frame::identity().mul_vec(&v), v);
}

#[test]
fn compose_keeps_rotation_and_adds_translations() {
    let rot_pose = Pose::from_parts(
        Rotation::new(Vec3::new(0, 0, 1), 42),
        Vec3::new(1, 2, 3),
        Vec3::new(10, 0, 0),
    );
    let shift = Pose::translation(&Vec3::new(0, 5, 0));
    let composed = shift.compose(&rot_pose);
    // The rotation and the child-side offset are untouched; the
    // translation lands on the parent side, after the rotation.
    assert_eq!(composed.rot, rot_pose.rot);
    assert_eq!(composed.pre, Vec3::new(1, 2, 3));
    assert_eq!(composed.post, Vec3::new(10, 5, 0));
}

#[test]
fn shifts_enter_the_pose_on_their_own_sides() {
    let revo = RevoluteJoint::new(Vec3::new(0, 0, 1), 7);
    let pose = revo.body_to_parent(&Vec3::new(4, 0, 0), &Vec3::new(0, 2, 0));
    assert_eq!(pose.rot, Rotation::new(Vec3::new(0, 0, 1), 7));
    assert_eq!(pose.pre, Vec3::new(0, -2, 0));
    assert_eq!(pose.post, Vec3::new(4, 0, 0));

    let prism = PrismaticJoint::new(Vec3::new(1, 0, 0), 3);
    let slide = prism.body_to_parent(&Vec3::new(4, 0, 0), &Vec3::new(0, 2, 0));
    assert_eq!(slide.rot, Rotation::identity());
    assert_eq!(slide.pre, Vec3::new(0, -2, 0));
    assert_eq!(slide.post, Vec3::new(7, 0, 0));
}

#[test]
fn jacobian_dot_columns_hold_the_swept_response() {
    let mut j = PinSlotJoint::new(Vec3::new(1, 0, 0), Vec3::new(0, 0, 1), 0, 0);
    let vels: Vec<i64> = vec![5, 2];
    j.update_jacobians(&Vec3::new(1, 0, 0), &vels);

    let mut out: Vec<i64> = vec![3; 12];
    j.jacobian_dot(&Frame::identity(), &mut out, 0);
    // The prismatic column is identically zero.
    assert_eq!(&out[0..6], &[0, 0, 0, 0, 0, 0]);
    // The revolute column is (axis * 2) x (axis x (-shift)) = (2, 0, 0).
    assert_eq!(&out[6..12], &[2, 0, 0, 0, 0, 0]);
}

#[test]
fn veldiff_columns_scale_with_the_given_velocity() {
    let mut j = PinSlotJoint::new(Vec3::new(1, 0, 0), Vec3::new(0, 0, 1), 0, 0);
    let update_vels: Vec<i64> = vec![0, 0];
    j.update_jacobians(&Vec3::new(1, 0, 0), &update_vels);

    let probe_vels: Vec<i64> = vec![9, 4];
    let mut out: Vec<i64> = vec![8; 12];
    j.jacobian_dot_veldiff_mul_coordinates(&Frame::identity(), &probe_vels, &mut out, 0);
    assert_eq!(&out[0..6], &[0, 0, 0, 0, 0, 0]);
    // axis x jac_linear = (0,0,1) x (0,-1,0) = (1,0,0), scaled by 4.
    assert_eq!(&out[6..12], &[4, 0, 0, 0, 0, 0]);
}
