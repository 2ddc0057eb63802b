//! The shared Jacobian buffer and its column discipline.
//!
//! The per-step Jacobian is one flat `i64` buffer.  Column `c` (one column
//! per degree of freedom) occupies the six slots `6*c .. 6*c + 6`, holding
//! the linear then the angular part of the column's spatial vector.  Each
//! joint is assigned a disjoint column range; the writer below touches
//! exactly one column and provably leaves every other slot unchanged, which
//! is the aliasing invariant the whole buffer-sharing design rests on.

use vstd::prelude::*;

use crate::spatial::{SpatialVec, Velocity};

verus! {

/// The six slots of column `col` hold the spatial vector `v`.
pub open spec fn column_holds(s: Seq<i64>, col: int, v: SpatialVec) -> bool {
    &&& s[6 * col + 0] == v.linear.x
    &&& s[6 * col + 1] == v.linear.y
    &&& s[6 * col + 2] == v.linear.z
    &&& s[6 * col + 3] == v.angular.x
    &&& s[6 * col + 4] == v.angular.y
    &&& s[6 * col + 5] == v.angular.z
}

/// `post` agrees with `pre` everywhere outside the `n` columns starting at
/// `col`.
pub open spec fn untouched_outside_columns(pre: Seq<i64>, post: Seq<i64>, col: int, n: int) -> bool {
    &&& post.len() == pre.len()
    &&& forall|i: int|
        0 <= i < pre.len() && !(6 * col <= i < 6 * (col + n)) ==> post[i] == pre[i]
}

/// Writes the spatial vector `v` into column `col`, leaving every slot
/// outside that column unchanged.
pub fn write_column(out: &mut Vec<i64>, col: usize, v: &Velocity)
    requires
        6 * col + 6 <= old(out).len(),
    ensures
        untouched_outside_columns(old(out)@, final(out)@, col as int, 1),
        column_holds(final(out)@, col as int, v@),
{
    let base: usize = 6 * col;
    out.set(base, v.linear.x);
    out.set(base + 1, v.linear.y);
    out.set(base + 2, v.linear.z);
    out.set(base + 3, v.angular.x);
    out.set(base + 4, v.angular.y);
    out.set(base + 5, v.angular.z);
}

} // verus!
