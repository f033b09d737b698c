//! Verified 2D convex-polygon intersection testing with the
//! Gilbert–Johnson–Keerthi (GJK) algorithm.
//!
//! Coordinates are bounded integers, so every geometric predicate the
//! algorithm relies on (all of them sign tests of dot products) is computed
//! exactly.  Search directions are kept un-normalised: only their orientation
//! ever matters, and skipping the rescaling keeps the arithmetic exact.

pub mod vec2;
pub mod shape;
pub mod simplex;
pub mod gjk;
pub mod laws;
