//! Exact planar motion and geometry on an integer lattice.
//!
//! Positions, speeds and elapsed time are whole numbers of caller-chosen
//! units (for instance thousandths of a pixel and milliseconds), so every
//! result is exact: there is no rounding anywhere in this crate. Quantities
//! that would be irrational (a Euclidean length, a cosine) are reported by
//! their squares or as an exact ratio, which is all that comparisons need.

pub mod input;
pub mod vector;
pub mod kinematics;
pub mod relation;
pub mod frame;
pub mod scene;
pub mod ray;
