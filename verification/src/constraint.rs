//! Integration parameters and the per-step constraint set.
//!
//! Joints append motor rows (bilateral, equality) and limit rows
//! (unilateral, inequality) into one shared, append-only set, and write one
//! auxiliary Jacobian coefficient per row into a shared flat buffer at the
//! row counter `ground_jacobian_id`, advancing the counter as they go.  The
//! set is produced fresh each step and consumed once by the external
//! velocity-level solver.

use vstd::prelude::*;

verus! {

/// Parameters of one integration step, immutable for its duration.
#[derive(Clone, Copy, Debug, PartialEq, Eq, Structural)]
pub struct IntegrationParameters {
    /// The timestep.
    pub dt: i64,
}

impl IntegrationParameters {
    pub fn new(dt: i64) -> (r: IntegrationParameters)
        ensures
            r == (IntegrationParameters { dt }),
    {
        IntegrationParameters { dt }
    }
}

/// An equality constraint row: a motor driving a generalized coordinate
/// toward a target velocity.
#[derive(Clone, Copy, Debug, PartialEq, Eq, Structural)]
pub struct BilateralGroundConstraint {
    /// Index of the owning body's block in the solver assembly.
    pub assembly_id: usize,
    /// Row written for this constraint in the auxiliary Jacobian buffer.
    pub jacobian_id: usize,
    /// Offset of the constrained coordinate in the global dof space.
    pub dof_id: usize,
    /// Velocity error the solver must drive to zero.
    pub rhs: i64,
}

/// An inequality constraint row: a joint limit, active only while the
/// coordinate stands at or beyond its bound.  The solved impulse is bounded
/// below by zero and unbounded above.
#[derive(Clone, Copy, Debug, PartialEq, Eq, Structural)]
pub struct UnilateralGroundConstraint {
    /// Index of the owning body's block in the solver assembly.
    pub assembly_id: usize,
    /// Row written for this constraint in the auxiliary Jacobian buffer.
    pub jacobian_id: usize,
    /// Offset of the constrained coordinate in the global dof space.
    pub dof_id: usize,
    /// Depth of the bound violation the solver must push back to zero.
    pub rhs: i64,
}

/// The ordered, append-only collection of constraint rows built during one
/// step.
#[derive(Debug)]
pub struct ConstraintSet {
    pub bilateral: Vec<BilateralGroundConstraint>,
    pub unilateral: Vec<UnilateralGroundConstraint>,
}

impl ConstraintSet {
    pub fn new() -> (r: ConstraintSet)
        ensures
            r.bilateral@ == Seq::<BilateralGroundConstraint>::empty(),
            r.unilateral@ == Seq::<UnilateralGroundConstraint>::empty(),
    {
        ConstraintSet { bilateral: Vec::new(), unilateral: Vec::new() }
    }

    /// Total number of rows in the set.
    pub fn len(&self) -> (r: usize)
        requires
            self.bilateral@.len() + self.unilateral@.len() <= usize::MAX,
        ensures
            r == self.bilateral@.len() + self.unilateral@.len(),
    {
        self.bilateral.len() + self.unilateral.len()
    }
}

} // verus!
