//! Homogeneous-coordinate tuples for 3D geometry, in fixed-point arithmetic.
//!
//! A tuple holds four coordinates `x`, `y`, `z`, `w`; `w == 1.0` marks a
//! point in space and `w == 0.0` marks a direction vector.  Every coordinate
//! is carried as a signed integer count of millionths (`SCALE` units per
//! 1.0), so the whole algebra — construction, classification, approximate
//! equality, the arithmetic operators, magnitude, normalization, dot and
//! cross products — is exact integer computation and is verified.

pub mod arith;
pub mod laws;
pub mod tuple;
