use multibody_joints::constraint::{ConstraintSet, IntegrationParameters};
use multibody_joints::multibody::{Joint, Multibody};
use multibody_joints::pin_slot::PinSlotJoint;
use multibody_joints::pose::Frame;
use multibody_joints::prismatic::PrismaticJoint;
use multibody_joints::revolute::RevoluteJoint;
use multibody_joints::vec3::Vec3;

fn pin_slot_example() -> PinSlotJoint {
    PinSlotJoint::new(Vec3::new(1, 0, 0), Vec3::new(0, 0, 1), 0, 0)
}

#[test]
fn motor_row_content_is_exact() {
    let mut j = PrismaticJoint::new(Vec3::new(1, 0, 0), 5);
    j.set_desired_linear_motor_velocity(9);
    let params = IntegrationParameters::new(1);
    let ext_vels: Vec<i64> = vec![0, 0, 3, 0];
    let mut gid: usize = 1;
    let mut jacobians: Vec<i64> = vec![0; 4];
    let mut set = ConstraintSet::new();
    j.build_constraints(&params, 1, 1, &ext_vels, &mut gid, &mut jacobians, &mut set);

    assert_eq!(gid, 2);
    assert_eq!(jacobians, vec![0, 1, 0, 0]);
    assert_eq!(set.bilateral.len(), 1);
    assert_eq!(set.unilateral.len(), 0);
    let row = set.bilateral[0];
    assert_eq!(row.assembly_id, 1);
    assert_eq!(row.jacobian_id, 1);
    assert_eq!(row.dof_id, 1);
    // Velocity error: target minus the external velocity of the dof slot.
    assert_eq!(row.rhs, 9 - 3);
}

#[test]
fn limit_rows_follow_motor_rows() {
    let mut j = RevoluteJoint::new(Vec3::new(0, 0, 1), 12);
    j.set_desired_angular_motor_velocity(-2);
    j.enable_max_angle(10);
    j.enable_min_angle(20);
    let params = IntegrationParameters::new(1);
    let ext_vels: Vec<i64> = vec![4];
    let mut gid: usize = 0;
    let mut jacobians: Vec<i64> = vec![7; 5];
    let mut set = ConstraintSet::new();
    j.build_constraints(&params, 0, 0, &ext_vels, &mut gid, &mut jacobians, &mut set);

    // Motor row, then the active lower limit, then the active upper limit.
    assert_eq!(gid, 3);
    assert_eq!(jacobians, vec![1, 1, -1, 7, 7]);
    assert_eq!(set.bilateral.len(), 1);
    assert_eq!(set.bilateral[0].rhs, -2 - 4);
    assert_eq!(set.unilateral.len(), 2);
    assert_eq!(set.unilateral[0].jacobian_id, 1);
    assert_eq!(set.unilateral[0].rhs, 20 - 12);
    assert_eq!(set.unilateral[1].jacobian_id, 2);
    assert_eq!(set.unilateral[1].rhs, 12 - 10);
}

#[test]
fn composite_rows_share_one_row_counter() {
    let mut j = pin_slot_example();
    j.prism.set_desired_linear_motor_velocity(5);
    j.revo.set_desired_angular_motor_velocity(8);
    let params = IntegrationParameters::new(1);
    let ext_vels: Vec<i64> = vec![1, 2];
    let mut gid: usize = 0;
    let mut jacobians: Vec<i64> = vec![0; 4];
    let mut set = ConstraintSet::new();
    j.build_constraints(&params, 0, 0, &ext_vels, &mut gid, &mut jacobians, &mut set);

    assert_eq!(gid, 2);
    assert_eq!(set.bilateral.len(), 2);
    // The prismatic row uses dof slot 0, the revolute row dof slot 1.
    assert_eq!(set.bilateral[0].dof_id, 0);
    assert_eq!(set.bilateral[0].jacobian_id, 0);
    assert_eq!(set.bilateral[0].rhs, 5 - 1);
    assert_eq!(set.bilateral[1].dof_id, 1);
    assert_eq!(set.bilateral[1].jacobian_id, 1);
    assert_eq!(set.bilateral[1].rhs, 8 - 2);
    assert_eq!(set.len(), 2);
}

#[test]
fn add_link_assigns_disjoint_tiling_ranges() {
    let mut mb = Multibody::new();
    let d0 = mb.add_link(None, Joint::Prismatic(PrismaticJoint::new(Vec3::new(1, 0, 0), 0)));
    let d1 = mb.add_link(Some(0), Joint::PinSlot(pin_slot_example()));
    let d2 = mb.add_link(Some(1), Joint::Revolute(RevoluteJoint::new(Vec3::new(0, 1, 0), 0)));
    assert_eq!(d0, Ok(0));
    assert_eq!(d1, Ok(1));
    assert_eq!(d2, Ok(3));
    assert_eq!(mb.ndofs(), 4);
}

#[test]
fn add_link_rejects_parent_out_of_range() {
    let mut mb = Multibody::new();
    let bad = mb.add_link(Some(0), Joint::Prismatic(PrismaticJoint::new(Vec3::new(1, 0, 0), 0)));
    assert_eq!(bad, Err(()));
    assert_eq!(mb.ndofs(), 0);
    let good = mb.add_link(None, Joint::Prismatic(PrismaticJoint::new(Vec3::new(1, 0, 0), 0)));
    assert_eq!(good, Ok(0));
    let bad2 = mb.add_link(Some(1), Joint::Revolute(RevoluteJoint::new(Vec3::new(0, 1, 0), 0)));
    assert_eq!(bad2, Err(()));
    assert_eq!(mb.ndofs(), 1);
}

#[test]
fn build_all_constraints_walks_links_in_order() {
    let mut mb = Multibody::new();
    let mut first = PrismaticJoint::new(Vec3::new(1, 0, 0), 5);
    first.set_desired_linear_motor_velocity(9);
    mb.add_link(None, Joint::Prismatic(first)).unwrap();
    let mut pin = pin_slot_example();
    pin.revo.set_desired_angular_motor_velocity(4);
    pin.revo.enable_min_angle(3);
    mb.add_link(Some(0), Joint::PinSlot(pin)).unwrap();

    let params = IntegrationParameters::new(1);
    let ext_vels: Vec<i64> = vec![10, 20, 30];
    let mut gid: usize = 0;
    let mut jacobians: Vec<i64> = vec![0; 8];
    let mut set = ConstraintSet::new();
    mb.build_all_constraints(&params, 0, &ext_vels, &mut gid, &mut jacobians, &mut set);

    // First link's motor row, then the pin-slot's revolute motor row and
    // its active lower limit row, all sharing one row counter.
    assert_eq!(gid, 3);
    assert_eq!(jacobians, vec![1, 1, 1, 0, 0, 0, 0, 0]);
    assert_eq!(set.bilateral.len(), 2);
    assert_eq!(set.bilateral[0].dof_id, 0);
    assert_eq!(set.bilateral[0].jacobian_id, 0);
    assert_eq!(set.bilateral[0].rhs, 9 - 10);
    assert_eq!(set.bilateral[1].dof_id, 2);
    assert_eq!(set.bilateral[1].jacobian_id, 1);
    assert_eq!(set.bilateral[1].rhs, 4 - 30);
    assert_eq!(set.unilateral.len(), 1);
    assert_eq!(set.unilateral[0].jacobian_id, 2);
    assert_eq!(set.unilateral[0].rhs, 3 - 0);
}

#[test]
fn apply_displacements_moves_every_coordinate_once() {
    let mut mb = Multibody::new();
    mb.add_link(None, Joint::Prismatic(PrismaticJoint::new(Vec3::new(1, 0, 0), 100)))
        .unwrap();
    mb.add_link(Some(0), Joint::PinSlot(pin_slot_example())).unwrap();

    let params = IntegrationParameters::new(2);
    let vels: Vec<i64> = vec![3, -1, 7];
    mb.apply_displacements(&params, &vels);

    match mb.links[0].joint {
        Joint::Prismatic(j) => assert_eq!(j.offset(), 100 + 2 * 3),
        _ => panic!("first link must stay prismatic"),
    }
    match mb.links[1].joint {
        Joint::PinSlot(j) => {
            assert_eq!(j.offset(), 0 + 2 * -1);
            assert_eq!(j.angle(), 0 + 2 * 7);
        }
        _ => panic!("second link must stay a pin-slot joint"),
    }
    assert_eq!(mb.ndofs(), 3);
}

#[test]
fn fill_jacobians_tiles_the_buffer() {
    let mut mb = Multibody::new();
    mb.add_link(None, Joint::Prismatic(PrismaticJoint::new(Vec3::new(1, 0, 0), 0)))
        .unwrap();
    let mut pin = pin_slot_example();
    let vels: Vec<i64> = vec![0, 0];
    pin.update_jacobians(&Vec3::new(0, 0, 0), &vels);
    mb.add_link(Some(0), Joint::PinSlot(pin)).unwrap();

    let mut out: Vec<i64> = vec![55; 6 * 3 + 4];
    mb.fill_jacobians(&Frame::identity(), &mut out);

    // Column 0: the first link's prismatic axis.
    assert_eq!(&out[0..6], &[1, 0, 0, 0, 0, 0]);
    // Column 1: the pin-slot's prismatic axis.
    assert_eq!(&out[6..12], &[1, 0, 0, 0, 0, 0]);
    // Column 2: the pin-slot's revolute response about (0,0,1).
    assert_eq!(&out[12..18], &[0, 0, 0, 0, 0, 1]);
    // Slots past the tiled range keep their sentinels.
    assert_eq!(&out[18..22], &[55, 55, 55, 55]);
}
