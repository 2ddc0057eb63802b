//! The multibody tree: an ordered collection of links, each with a parent
//! reference, an inbound joint, and an assigned range of generalized-
//! coordinate / Jacobian-column indices.
//!
//! The ranges are assigned once, when a link is added, as the running sum
//! of the dof counts before it; the well-formedness invariant below makes
//! them pairwise disjoint and an exact tiling of the global buffers — no
//! gaps, no overlap.  Range validation happens here, at tree-build time,
//! not per step.

use vstd::prelude::*;

use crate::constraint::{BilateralGroundConstraint, ConstraintSet, IntegrationParameters,
    UnilateralGroundConstraint};
use crate::jacobian::{column_holds, untouched_outside_columns};
use crate::pin_slot::PinSlotJoint;
use crate::pose::{Frame, M3};
use crate::prismatic::PrismaticJoint;
use crate::revolute::RevoluteJoint;
use crate::spatial::SpatialVec;
use crate::vec3::in_i64;

verus! {

/// The closed set of joint variants a link can carry.
#[derive(Clone, Copy, Debug, PartialEq, Eq, Structural)]
pub enum Joint {
    Prismatic(PrismaticJoint),
    Revolute(RevoluteJoint),
    PinSlot(PinSlotJoint),
}

impl Joint {
    /// Number of generalized coordinates the joint owns.
    pub open spec fn ndofs_spec(self) -> int {
        match self {
            Joint::Prismatic(j) => j.ndofs_spec(),
            Joint::Revolute(j) => j.ndofs_spec(),
            Joint::PinSlot(j) => j.ndofs_spec(),
        }
    }

    /// The `k`-th Jacobian column the joint writes, expressed through `m`.
    pub open spec fn column_spec(self, m: M3, k: int) -> SpatialVec {
        match self {
            Joint::Prismatic(j) => j.mapped_jacobian_spec(m),
            Joint::Revolute(j) => j.mapped_jacobian_spec(m),
            Joint::PinSlot(j) => if k == 0 {
                j.prism.mapped_jacobian_spec(m)
            } else {
                j.revo.mapped_jacobian_spec(m)
            },
        }
    }

    /// The columns the joint writes through `m` all fit in `i64`.
    pub open spec fn columns_fit(self, m: M3) -> bool {
        match self {
            Joint::Prismatic(j) => m.mul(j.axis@).fits(),
            Joint::Revolute(j) => j.mapped_jacobian_spec(m).fits(),
            Joint::PinSlot(j) => m.mul(j.prism.axis@).fits()
                && j.revo.mapped_jacobian_spec(m).fits(),
        }
    }

    pub fn ndofs(&self) -> (n: usize)
        ensures
            n == self.ndofs_spec(),
            1 <= n <= 2,
    {
        match self {
            Joint::Prismatic(j) => j.ndofs(),
            Joint::Revolute(j) => j.ndofs(),
            Joint::PinSlot(j) => j.ndofs(),
        }
    }

    /// Writes the joint's Jacobian columns at columns `col ..`, leaving
    /// every slot outside its own column range unchanged.
    pub fn jacobian(&self, frame: &Frame, out: &mut Vec<i64>, col: usize)
        requires
            6 * (col + self.ndofs_spec()) <= old(out).len(),
            self.columns_fit(frame@),
        ensures
            untouched_outside_columns(old(out)@, final(out)@, col as int, self.ndofs_spec()),
            forall|k: int|
                0 <= k < self.ndofs_spec() ==> column_holds(
                    final(out)@,
                    col + k,
                    self.column_spec(frame@, k),
                ),
    {
        match self {
            Joint::Prismatic(j) => j.jacobian(frame, out, col),
            Joint::Revolute(j) => j.jacobian(frame, out, col),
            Joint::PinSlot(j) => j.jacobian(frame, out, col),
        }
    }

    /// The joint after one integration step of size `dt`, reading the
    /// solved velocities of its own dof slots starting at `dof_id`.
    pub open spec fn displaced_spec(self, dt: int, vels: Seq<i64>, dof_id: int) -> Joint {
        match self {
            Joint::Prismatic(j) => Joint::Prismatic(
                PrismaticJoint { offset: (j.offset + dt * vels[dof_id]) as i64, ..j },
            ),
            Joint::Revolute(j) => Joint::Revolute(
                RevoluteJoint { angle: (j.angle + dt * vels[dof_id]) as i64, ..j },
            ),
            Joint::PinSlot(j) => Joint::PinSlot(
                j.displaced_spec(dt, vels[dof_id] as int, vels[dof_id + 1] as int),
            ),
        }
    }

    /// The integrated coordinates stay within `i64`.
    pub open spec fn displacement_fits(self, dt: int, vels: Seq<i64>, dof_id: int) -> bool {
        match self {
            Joint::Prismatic(j) => in_i64(j.offset + dt * vels[dof_id]),
            Joint::Revolute(j) => in_i64(j.angle + dt * vels[dof_id]),
            Joint::PinSlot(j) => in_i64(j.prism.offset + dt * vels[dof_id]) && in_i64(
                j.revo.angle + dt * vels[dof_id + 1],
            ),
        }
    }

    /// Semi-implicit integration: each coordinate advances by `dt` times
    /// the solved velocity of its own dof slot, read at offset `dof_id` of
    /// the global velocity vector.
    pub fn apply_displacement(
        &mut self,
        params: &IntegrationParameters,
        vels: &Vec<i64>,
        dof_id: usize,
    )
        requires
            dof_id + old(self).ndofs_spec() <= vels.len(),
            old(self).displacement_fits(params.dt as int, vels@, dof_id as int),
        ensures
            *final(self) == old(self).displaced_spec(params.dt as int, vels@, dof_id as int),
    {
        match self {
            Joint::Prismatic(j) => {
                let sub_vels = vec![vels[dof_id]];
                j.apply_displacement(params, &sub_vels);
            },
            Joint::Revolute(j) => {
                let sub_vels = vec![vels[dof_id]];
                j.apply_displacement(params, &sub_vels);
            },
            Joint::PinSlot(j) => {
                let sub_vels = vec![vels[dof_id], vels[dof_id + 1]];
                j.apply_displacement(params, &sub_vels);
            },
        }
    }

    /// Number of constraint rows the joint contributes this step.
    pub open spec fn nconstraints_spec(self) -> int {
        match self {
            Joint::Prismatic(j) => j.nconstraints_spec(),
            Joint::Revolute(j) => j.nconstraints_spec(),
            Joint::PinSlot(j) => j.nconstraints_spec(),
        }
    }

    pub fn nconstraints(&self) -> (n: usize)
        ensures
            n == self.nconstraints_spec(),
            n <= 6,
    {
        match self {
            Joint::Prismatic(j) => j.nconstraints(),
            Joint::Revolute(j) => j.nconstraints(),
            Joint::PinSlot(j) => j.nconstraints(),
        }
    }

    /// Motor rows the joint appends, with the row counter standing at
    /// `gid`.
    pub open spec fn bilateral_rows_spec(
        self,
        assembly_id: usize,
        dof_id: usize,
        ext_vels: Seq<i64>,
        gid: int,
    ) -> Seq<BilateralGroundConstraint> {
        match self {
            Joint::Prismatic(j) => j.bilateral_rows_spec(assembly_id, dof_id, ext_vels, gid),
            Joint::Revolute(j) => j.bilateral_rows_spec(assembly_id, dof_id, ext_vels, gid),
            Joint::PinSlot(j) => j.prism.bilateral_rows_spec(assembly_id, dof_id, ext_vels, gid)
                + j.revo.bilateral_rows_spec(
                    assembly_id,
                    (dof_id + 1) as usize,
                    ext_vels,
                    gid + j.prism.nconstraints_spec(),
                ),
        }
    }

    /// Limit rows the joint appends, with the row counter standing at
    /// `gid`.
    pub open spec fn unilateral_rows_spec(self, assembly_id: usize, dof_id: usize, gid: int)
        -> Seq<UnilateralGroundConstraint> {
        match self {
            Joint::Prismatic(j) => j.unilateral_rows_spec(assembly_id, dof_id, gid),
            Joint::Revolute(j) => j.unilateral_rows_spec(assembly_id, dof_id, gid),
            Joint::PinSlot(j) => j.prism.unilateral_rows_spec(assembly_id, dof_id, gid)
                + j.revo.unilateral_rows_spec(
                    assembly_id,
                    (dof_id + 1) as usize,
                    gid + j.prism.nconstraints_spec(),
                ),
        }
    }

    /// Coefficients the joint writes into the auxiliary Jacobian buffer.
    pub open spec fn row_coeffs_spec(self) -> Seq<i64> {
        match self {
            Joint::Prismatic(j) => j.row_coeffs_spec(),
            Joint::Revolute(j) => j.row_coeffs_spec(),
            Joint::PinSlot(j) => j.prism.row_coeffs_spec() + j.revo.row_coeffs_spec(),
        }
    }

    /// The row right-hand sides the joint would build stay within `i64`.
    pub open spec fn rows_fit(self, assembly_id: usize, dof_id: usize, ext_vels: Seq<i64>)
        -> bool {
        match self {
            Joint::Prismatic(j) => {
                &&& j.motor_enabled ==> in_i64(
                    j.motor_target_vel - ext_vels[assembly_id + dof_id],
                )
                &&& j.min_limit_active() ==> in_i64(j.min_offset - j.offset)
                &&& j.max_limit_active() ==> in_i64(j.offset - j.max_offset)
            },
            Joint::Revolute(j) => {
                &&& j.motor_enabled ==> in_i64(
                    j.motor_target_vel - ext_vels[assembly_id + dof_id],
                )
                &&& j.min_limit_active() ==> in_i64(j.min_angle - j.angle)
                &&& j.max_limit_active() ==> in_i64(j.angle - j.max_angle)
            },
            Joint::PinSlot(j) => {
                &&& j.prism.motor_enabled ==> in_i64(
                    j.prism.motor_target_vel - ext_vels[assembly_id + dof_id],
                )
                &&& j.prism.min_limit_active() ==> in_i64(j.prism.min_offset - j.prism.offset)
                &&& j.prism.max_limit_active() ==> in_i64(j.prism.offset - j.prism.max_offset)
                &&& j.revo.motor_enabled ==> in_i64(
                    j.revo.motor_target_vel - ext_vels[assembly_id + dof_id + 1],
                )
                &&& j.revo.min_limit_active() ==> in_i64(j.revo.min_angle - j.revo.angle)
                &&& j.revo.max_limit_active() ==> in_i64(j.revo.angle - j.revo.max_angle)
            },
        }
    }

    /// Appends the joint's constraint rows at dof offset `dof_id`, writing
    /// its auxiliary Jacobian coefficients at the shared row counter and
    /// advancing it by the number of rows used.
    #[verifier::rlimit(50)]
    #[verifier::spinoff_prover]
    pub fn build_constraints(
        &self,
        params: &IntegrationParameters,
        assembly_id: usize,
        dof_id: usize,
        ext_vels: &Vec<i64>,
        ground_jacobian_id: &mut usize,
        jacobians: &mut Vec<i64>,
        constraints: &mut ConstraintSet,
    )
        requires
            assembly_id + dof_id + self.ndofs_spec() <= ext_vels.len(),
            *old(ground_jacobian_id) + self.nconstraints_spec() <= old(jacobians).len(),
            self.rows_fit(assembly_id, dof_id, ext_vels@),
        ensures
            *final(ground_jacobian_id) == *old(ground_jacobian_id) + self.nconstraints_spec(),
            final(jacobians)@.len() == old(jacobians)@.len(),
            forall|i: int|
                0 <= i < old(jacobians)@.len()
                    && !(*old(ground_jacobian_id) <= i
                        < *old(ground_jacobian_id) + self.nconstraints_spec())
                    ==> final(jacobians)@[i] == old(jacobians)@[i],
            final(jacobians)@.subrange(
                *old(ground_jacobian_id) as int,
                *old(ground_jacobian_id) + self.nconstraints_spec(),
            ) == self.row_coeffs_spec(),
            final(constraints).bilateral@ == old(constraints).bilateral@
                + self.bilateral_rows_spec(
                    assembly_id,
                    dof_id,
                    ext_vels@,
                    *old(ground_jacobian_id) as int,
                ),
            final(constraints).unilateral@ == old(constraints).unilateral@
                + self.unilateral_rows_spec(
                    assembly_id,
                    dof_id,
                    *old(ground_jacobian_id) as int,
                ),
    {
        match self {
            Joint::Prismatic(j) => j.build_constraints(
                params,
                assembly_id,
                dof_id,
                ext_vels,
                ground_jacobian_id,
                jacobians,
                constraints,
            ),
            Joint::Revolute(j) => j.build_constraints(
                params,
                assembly_id,
                dof_id,
                ext_vels,
                ground_jacobian_id,
                jacobians,
                constraints,
            ),
            Joint::PinSlot(j) => j.build_constraints(
                params,
                assembly_id,
                dof_id,
                ext_vels,
                ground_jacobian_id,
                jacobians,
                constraints,
            ),
        }
    }
}

/// One rigid body of the tree: its parent, its inbound joint, and its
/// assigned starting index into the global coordinate and Jacobian-column
/// space.
#[derive(Clone, Copy, Debug, PartialEq, Eq, Structural)]
pub struct MultibodyLink {
    /// Index of the parent link, `None` for a root.
    pub parent: Option<usize>,
    /// The joint connecting this link to its parent.
    pub joint: Joint,
    /// First generalized-coordinate / Jacobian-column index owned by this
    /// link.
    pub dof_id: usize,
}

/// Sum of the dof counts of the first `i` links: the column index where
/// link `i`'s range begins.
pub open spec fn dofs_before(links: Seq<MultibodyLink>, i: int) -> int
    decreases i,
{
    if i <= 0 {
        0
    } else {
        dofs_before(links, i - 1) + links[i - 1].joint.ndofs_spec()
    }
}

/// Sum of the constraint-row counts of the first `i` links.
pub open spec fn constraints_before(links: Seq<MultibodyLink>, i: int) -> int
    decreases i,
{
    if i <= 0 {
        0
    } else {
        constraints_before(links, i - 1) + links[i - 1].joint.nconstraints_spec()
    }
}

/// Motor rows of the first `i` links, in walk order, with the row counter
/// starting at `g0`.
pub open spec fn bilateral_rows_upto(
    links: Seq<MultibodyLink>,
    i: int,
    assembly_id: usize,
    ext_vels: Seq<i64>,
    g0: int,
) -> Seq<BilateralGroundConstraint>
    decreases i,
{
    if i <= 0 {
        Seq::empty()
    } else {
        bilateral_rows_upto(links, i - 1, assembly_id, ext_vels, g0) + links[i - 1]
            .joint
            .bilateral_rows_spec(
            assembly_id,
            links[i - 1].dof_id,
            ext_vels,
            g0 + constraints_before(links, i - 1),
        )
    }
}

/// Limit rows of the first `i` links, in walk order.
pub open spec fn unilateral_rows_upto(
    links: Seq<MultibodyLink>,
    i: int,
    assembly_id: usize,
    g0: int,
) -> Seq<UnilateralGroundConstraint>
    decreases i,
{
    if i <= 0 {
        Seq::empty()
    } else {
        unilateral_rows_upto(links, i - 1, assembly_id, g0) + links[i - 1]
            .joint
            .unilateral_rows_spec(
            assembly_id,
            links[i - 1].dof_id,
            g0 + constraints_before(links, i - 1),
        )
    }
}

/// Auxiliary Jacobian coefficients of the first `i` links, in walk order.
pub open spec fn row_coeffs_upto(links: Seq<MultibodyLink>, i: int) -> Seq<i64>
    decreases i,
{
    if i <= 0 {
        Seq::empty()
    } else {
        row_coeffs_upto(links, i - 1) + links[i - 1].joint.row_coeffs_spec()
    }
}

/// A joint writes exactly one coefficient per constraint row.
pub proof fn lemma_row_coeffs_len(j: Joint)
    ensures
        j.row_coeffs_spec().len() == j.nconstraints_spec(),
        j.nconstraints_spec() >= 0,
{
}

/// The walk writes exactly one coefficient per row over the first `i`
/// links.
pub proof fn lemma_row_coeffs_upto_len(links: Seq<MultibodyLink>, i: int)
    requires
        0 <= i <= links.len(),
    ensures
        row_coeffs_upto(links, i).len() == constraints_before(links, i),
        constraints_before(links, i) >= 0,
    decreases i,
{
    if i > 0 {
        lemma_row_coeffs_upto_len(links, i - 1);
        lemma_row_coeffs_len(links[i - 1].joint);
    }
}

/// The ordered tree of links.
#[derive(Debug)]
pub struct Multibody {
    /// The links, in insertion order; parents precede their children.
    pub links: Vec<MultibodyLink>,
    /// Total number of generalized coordinates over all links.
    pub ndofs: usize,
}

impl Multibody {
    /// Well-formedness: every link's parent comes before it, every link's
    /// assigned index is the exact running sum of the dof counts before it,
    /// and the stored total matches.  The assigned ranges therefore tile
    /// the global buffers with no gaps and no overlap.
    pub open spec fn wf(self) -> bool {
        &&& forall|i: int|
            0 <= i < self.links@.len() ==> (match #[trigger] self.links@[i].parent {
                Option::Some(p) => p < i,
                Option::None => true,
            })
        &&& forall|i: int|
            0 <= i < self.links@.len() ==> self.links@[i].dof_id == dofs_before(self.links@, i)
        &&& self.ndofs == dofs_before(self.links@, self.links@.len() as int)
    }

    pub fn new() -> (r: Multibody)
        ensures
            r.wf(),
            r.links@.len() == 0,
            r.ndofs == 0,
    {
        Multibody { links: Vec::new(), ndofs: 0 }
    }

    /// Total number of generalized coordinates over all links.
    pub fn ndofs(&self) -> (n: usize)
        ensures
            n == self.ndofs,
    {
        self.ndofs
    }

    /// Adds a link under `parent` with inbound joint `joint`, assigning it
    /// the next free index range.  Returns the assigned starting index, or
    /// rejects a parent reference that does not name an earlier link:
    /// mis-assigned ranges are caught here, at construction, never per
    /// step.
    pub fn add_link(&mut self, parent: Option<usize>, joint: Joint) -> (r: Result<usize, ()>)
        requires
            old(self).wf(),
            old(self).ndofs + 2 <= usize::MAX,
            old(self).links@.len() + 1 <= usize::MAX,
        ensures
            final(self).wf(),
            r matches Ok(d) ==> {
                &&& d == old(self).ndofs
                &&& final(self).links@ == old(self).links@.push(MultibodyLink {
                    parent,
                    joint,
                    dof_id: old(self).ndofs,
                })
                &&& final(self).ndofs == old(self).ndofs + joint.ndofs_spec()
            },
            r matches Err(e) ==> {
                &&& *final(self) == *old(self)
                &&& (parent matches Some(p) && p >= old(self).links@.len())
            },
            (match parent {
                Option::Some(p) => p < old(self).links@.len(),
                Option::None => true,
            }) <==> (r matches Ok(d) && d == old(self).ndofs),
    {
        match parent {
            Option::Some(p) => {
                if p >= self.links.len() {
                    return Err(());
                }
            },
            Option::None => {},
        }
        let dof_id = self.ndofs;
        let n = joint.ndofs();
        self.links.push(MultibodyLink { parent, joint, dof_id });
        self.ndofs = self.ndofs + n;
        proof {
            let links1 = self.links@;
            assert forall|i: int| 0 <= i < links1.len() implies links1[i].dof_id == dofs_before(
                links1,
                i,
            ) by {
                lemma_dofs_before_push(old(self).links@, links1.last(), i);
            }
            lemma_dofs_before_push(
                old(self).links@,
                links1.last(),
                links1.len() as int,
            );
        }
        Ok(dof_id)
    }
}

impl Multibody {
    /// Walks the tree and lets every link's joint write its Jacobian
    /// columns into the shared buffer at the link's assigned range.  Each
    /// link's columns end up holding its joint's values, and no write
    /// disturbs another link's range: the assigned ranges tile the buffer
    /// disjointly.
    pub fn fill_jacobians(&self, frame: &Frame, out: &mut Vec<i64>)
        requires
            self.wf(),
            6 * self.ndofs <= old(out).len(),
            forall|i: int|
                0 <= i < self.links@.len() ==> (#[trigger] self.links@[i].joint).columns_fit(
                    frame@,
                ),
        ensures
            final(out)@.len() == old(out)@.len(),
            forall|i: int|
                6 * self.ndofs <= i < old(out)@.len() ==> final(out)@[i] == old(out)@[i],
            forall|i: int, k: int|
                0 <= i < self.links@.len() && 0 <= k < self.links@[i].joint.ndofs_spec()
                    ==> column_holds(
                    final(out)@,
                    self.links@[i].dof_id + k,
                    #[trigger] self.links@[i].joint.column_spec(frame@, k),
                ),
    {
        let n_links = self.links.len();
        let mut idx: usize = 0;
        while idx < n_links
            invariant
                self.wf(),
                n_links == self.links@.len(),
                0 <= idx <= n_links,
                6 * self.ndofs <= old(out)@.len(),
                forall|i: int|
                    0 <= i < self.links@.len() ==> (#[trigger] self.links@[i].joint).columns_fit(
                        frame@,
                    ),
                out@.len() == old(out)@.len(),
                forall|i: int|
                    6 * dofs_before(self.links@, idx as int) <= i < out@.len() ==> out@[i]
                        == old(out)@[i],
                forall|i: int, k: int|
                    0 <= i < idx && 0 <= k < self.links@[i].joint.ndofs_spec() ==> column_holds(
                        out@,
                        self.links@[i].dof_id + k,
                        #[trigger] self.links@[i].joint.column_spec(frame@, k),
                    ),
            decreases n_links - idx,
        {
            proof {
                lemma_ndofs_nonneg(self.links@, idx as int);
                lemma_dofs_before_monotone(self.links@, idx as int + 1, self.links@.len() as int);
            }
            let link = self.links[idx];
            let ghost pre: Seq<i64> = out@;
            link.joint.jacobian(frame, out, link.dof_id);
            proof {
                assert forall|i: int, k: int|
                    0 <= i < idx && 0 <= k < self.links@[i].joint.ndofs_spec() implies column_holds(
                    out@,
                    self.links@[i].dof_id + k,
                    #[trigger] self.links@[i].joint.column_spec(frame@, k),
                ) by {
                    lemma_ranges_disjoint(self.links@, i, idx as int);
                }
            }
            idx = idx + 1;
        }
        proof {
            assert(dofs_before(self.links@, self.links@.len() as int) == self.ndofs);
        }
    }

    /// Walks the tree and lets every link's joint append its motor and
    /// limit rows, all links sharing the one row counter, which advances
    /// monotonically: row allocation stays globally consistent, and the
    /// built rows are exactly the links' rows in walk order.
    #[verifier::rlimit(80)]
    #[verifier::spinoff_prover]
    pub fn build_all_constraints(
        &self,
        params: &IntegrationParameters,
        assembly_id: usize,
        ext_vels: &Vec<i64>,
        ground_jacobian_id: &mut usize,
        jacobians: &mut Vec<i64>,
        constraints: &mut ConstraintSet,
    )
        requires
            self.wf(),
            assembly_id + self.ndofs <= ext_vels.len(),
            *old(ground_jacobian_id) + constraints_before(self.links@, self.links@.len() as int)
                <= old(jacobians).len(),
            forall|i: int|
                0 <= i < self.links@.len() ==> (#[trigger] self.links@[i].joint).rows_fit(
                    assembly_id,
                    self.links@[i].dof_id,
                    ext_vels@,
                ),
        ensures
            *final(ground_jacobian_id) == *old(ground_jacobian_id) + constraints_before(
                self.links@,
                self.links@.len() as int,
            ),
            final(jacobians)@.len() == old(jacobians)@.len(),
            forall|i: int|
                0 <= i < old(jacobians)@.len()
                    && !(*old(ground_jacobian_id) <= i < *final(ground_jacobian_id))
                    ==> final(jacobians)@[i] == old(jacobians)@[i],
            final(jacobians)@.subrange(
                *old(ground_jacobian_id) as int,
                *final(ground_jacobian_id) as int,
            ) == row_coeffs_upto(self.links@, self.links@.len() as int),
            final(constraints).bilateral@ == old(constraints).bilateral@ + bilateral_rows_upto(
                self.links@,
                self.links@.len() as int,
                assembly_id,
                ext_vels@,
                *old(ground_jacobian_id) as int,
            ),
            final(constraints).unilateral@ == old(constraints).unilateral@ + unilateral_rows_upto(
                self.links@,
                self.links@.len() as int,
                assembly_id,
                *old(ground_jacobian_id) as int,
            ),
    {
        let ghost g0: int = *ground_jacobian_id as int;
        let n_links = self.links.len();
        proof {
            lemma_row_coeffs_upto_len(self.links@, self.links@.len() as int);
            assert(jacobians@.subrange(g0, g0) =~= row_coeffs_upto(self.links@, 0));
        }
        let mut idx: usize = 0;
        while idx < n_links
            invariant
                self.wf(),
                n_links == self.links@.len(),
                0 <= idx <= n_links,
                assembly_id + self.ndofs <= ext_vels@.len(),
                g0 + constraints_before(self.links@, self.links@.len() as int)
                    <= old(jacobians)@.len(),
                forall|i: int|
                    0 <= i < self.links@.len() ==> (#[trigger] self.links@[i].joint).rows_fit(
                        assembly_id,
                        self.links@[i].dof_id,
                        ext_vels@,
                    ),
                g0 == *old(ground_jacobian_id) as int,
                *ground_jacobian_id == g0 + constraints_before(self.links@, idx as int),
                jacobians@.len() == old(jacobians)@.len(),
                forall|i: int|
                    0 <= i < old(jacobians)@.len()
                        && !(g0 <= i < g0 + constraints_before(self.links@, idx as int))
                        ==> jacobians@[i] == old(jacobians)@[i],
                jacobians@.subrange(g0, g0 + constraints_before(self.links@, idx as int))
                    == row_coeffs_upto(self.links@, idx as int),
                constraints.bilateral@ == old(constraints).bilateral@ + bilateral_rows_upto(
                    self.links@,
                    idx as int,
                    assembly_id,
                    ext_vels@,
                    g0,
                ),
                constraints.unilateral@ == old(constraints).unilateral@ + unilateral_rows_upto(
                    self.links@,
                    idx as int,
                    assembly_id,
                    g0,
                ),
            decreases n_links - idx,
        {
            proof {
                lemma_ndofs_nonneg(self.links@, idx as int);
                lemma_dofs_before_monotone(self.links@, idx as int + 1, self.links@.len() as int);
                lemma_constraints_before_monotone(
                    self.links@,
                    idx as int + 1,
                    self.links@.len() as int,
                );
                lemma_row_coeffs_upto_len(self.links@, idx as int);
                lemma_row_coeffs_len(self.links@[idx as int].joint);
            }
            let link = self.links[idx];
            let ghost pre: Seq<i64> = jacobians@;
            let ghost gid_i: int = *ground_jacobian_id as int;
            link.joint.build_constraints(
                params,
                assembly_id,
                link.dof_id,
                ext_vels,
                ground_jacobian_id,
                jacobians,
                constraints,
            );
            proof {
                lemma_row_coeffs_upto_len(self.links@, idx as int + 1);
                assert(constraints.bilateral@ =~= old(constraints).bilateral@
                    + bilateral_rows_upto(self.links@, idx as int + 1, assembly_id, ext_vels@, g0));
                assert(constraints.unilateral@ =~= old(constraints).unilateral@
                    + unilateral_rows_upto(self.links@, idx as int + 1, assembly_id, g0));
                assert(jacobians@.subrange(g0, gid_i) =~= pre.subrange(g0, gid_i));
                assert(jacobians@.subrange(
                    g0,
                    g0 + constraints_before(self.links@, idx as int + 1),
                ) =~= row_coeffs_upto(self.links@, idx as int + 1));
            }
            idx = idx + 1;
        }
    }
}

impl Multibody {
    /// Integrates every link's joint coordinates forward by one step,
    /// each joint reading the solved velocities of its own assigned dof
    /// slots.  The tree's shape, assigned ranges and dof total are
    /// untouched: only the coordinates move.
    pub fn apply_displacements(&mut self, params: &IntegrationParameters, vels: &Vec<i64>)
        requires
            old(self).wf(),
            old(self).ndofs <= vels.len(),
            forall|i: int|
                0 <= i < old(self).links@.len() ==> (#[trigger] old(self).links@[i].joint)
                    .displacement_fits(
                    params.dt as int,
                    vels@,
                    old(self).links@[i].dof_id as int,
                ),
        ensures
            final(self).wf(),
            final(self).ndofs == old(self).ndofs,
            final(self).links@.len() == old(self).links@.len(),
            forall|i: int|
                0 <= i < old(self).links@.len() ==> final(self).links@[i]
                    == (MultibodyLink {
                    joint: (#[trigger] old(self).links@[i].joint).displaced_spec(
                        params.dt as int,
                        vels@,
                        old(self).links@[i].dof_id as int,
                    ),
                    ..old(self).links@[i]
                }),
    {
        let n_links = self.links.len();
        let mut idx: usize = 0;
        while idx < n_links
            invariant
                n_links == self.links@.len(),
                self.links@.len() == old(self).links@.len(),
                0 <= idx <= n_links,
                self.ndofs == old(self).ndofs,
                old(self).wf(),
                old(self).ndofs <= vels@.len(),
                forall|i: int|
                    0 <= i < old(self).links@.len() ==> (#[trigger] old(self).links@[i].joint)
                        .displacement_fits(
                        params.dt as int,
                        vels@,
                        old(self).links@[i].dof_id as int,
                    ),
                forall|i: int|
                    idx <= i < self.links@.len() ==> #[trigger] self.links@[i]
                        == old(self).links@[i],
                forall|i: int|
                    0 <= i < idx ==> #[trigger] self.links@[i] == (MultibodyLink {
                        joint: old(self).links@[i].joint.displaced_spec(
                            params.dt as int,
                            vels@,
                            old(self).links@[i].dof_id as int,
                        ),
                        ..old(self).links@[i]
                    }),
            decreases n_links - idx,
        {
            proof {
                lemma_ndofs_nonneg(old(self).links@, idx as int);
                lemma_dofs_before_monotone(
                    old(self).links@,
                    idx as int + 1,
                    old(self).links@.len() as int,
                );
            }
            let mut link = self.links[idx];
            link.joint.apply_displacement(params, vels, link.dof_id);
            self.links.set(idx, link);
            idx = idx + 1;
        }
        proof {
            lemma_dofs_before_same_shape(old(self).links@, self.links@, self.links@.len() as int);
            assert forall|i: int| 0 <= i < self.links@.len() implies self.links@[i].dof_id
                == dofs_before(self.links@, i) by {
                lemma_dofs_before_same_shape(old(self).links@, self.links@, i);
            }
        }
    }
}

/// Integrating a joint never changes its variant or its dof count.
pub proof fn lemma_displaced_ndofs(j: Joint, dt: int, vels: Seq<i64>, dof_id: int)
    ensures
        j.displaced_spec(dt, vels, dof_id).ndofs_spec() == j.ndofs_spec(),
{
}

/// Two link sequences whose joints own the same dof counts index their
/// ranges identically.
proof fn lemma_dofs_before_same_shape(s1: Seq<MultibodyLink>, s2: Seq<MultibodyLink>, i: int)
    requires
        s1.len() == s2.len(),
        0 <= i <= s1.len(),
        forall|j: int|
            0 <= j < s1.len() ==> (#[trigger] s2[j].joint).ndofs_spec() == s1[j].joint.ndofs_spec(),
    ensures
        dofs_before(s2, i) == dofs_before(s1, i),
    decreases i,
{
    if i > 0 {
        lemma_dofs_before_same_shape(s1, s2, i - 1);
    }
}

/// The running constraint-row sums never decrease from one index to a
/// later one.
proof fn lemma_constraints_before_monotone(links: Seq<MultibodyLink>, i: int, j: int)
    requires
        0 <= i <= j <= links.len(),
    ensures
        constraints_before(links, i) <= constraints_before(links, j),
    decreases j - i,
{
    if j > i {
        lemma_row_coeffs_len(links[j - 1].joint);
        lemma_constraints_before_monotone(links, i, j - 1);
    }
}

/// The running dof sums never decrease from one index to a later one.
proof fn lemma_dofs_before_monotone(links: Seq<MultibodyLink>, i: int, j: int)
    requires
        0 <= i <= j <= links.len(),
    ensures
        dofs_before(links, i) <= dofs_before(links, j),
    decreases j - i,
{
    if j > i {
        lemma_ndofs_nonneg(links, j - 1);
        lemma_dofs_before_monotone(links, i, j - 1);
    }
}

/// Appending a link does not change the running dof sums before it.
proof fn lemma_dofs_before_push(links: Seq<MultibodyLink>, link: MultibodyLink, i: int)
    requires
        0 <= i <= links.len() + 1,
    ensures
        i <= links.len() ==> dofs_before(links.push(link), i) == dofs_before(links, i),
        i == links.len() + 1 ==> dofs_before(links.push(link), i) == dofs_before(
            links,
            links.len() as int,
        ) + link.joint.ndofs_spec(),
    decreases i,
{
    if i > 0 {
        lemma_dofs_before_push(links, link, i - 1);
    }
}

/// The running dof sums are monotone: each link's range ends before any
/// later link's range begins, so the assigned ranges are pairwise disjoint.
pub proof fn lemma_ranges_disjoint(links: Seq<MultibodyLink>, i: int, j: int)
    requires
        0 <= i < j <= links.len(),
    ensures
        dofs_before(links, i) + links[i].joint.ndofs_spec() <= dofs_before(links, j),
    decreases j - i,
{
    if j > i + 1 {
        lemma_ranges_disjoint(links, i, j - 1);
        lemma_ndofs_nonneg(links, j - 1);
    }
}

/// Every joint owns at least one coordinate, so the running sums never
/// decrease.
proof fn lemma_ndofs_nonneg(links: Seq<MultibodyLink>, i: int)
    requires
        0 <= i < links.len(),
    ensures
        dofs_before(links, i + 1) == dofs_before(links, i) + links[i].joint.ndofs_spec(),
        links[i].joint.ndofs_spec() >= 1,
{
}

} // verus!
