//! Joint-kinematics core of a reduced-coordinate rigid-body engine.
//!
//! An articulated tree of bodies is connected by joints; each joint owns a
//! small number of generalized coordinates and knows how to turn them into
//! rigid transforms, Jacobian columns and constraint rows.  All spatial
//! quantities are held as exact integer vectors, and rotations are kept in
//! axis-angle form, so every kinematic identity proved here is exact rather
//! than approximate.

pub mod constraint;
pub mod jacobian;
pub mod multibody;
pub mod pin_slot;
pub mod pose;
pub mod prismatic;
pub mod revolute;
pub mod spatial;
pub mod vec3;
