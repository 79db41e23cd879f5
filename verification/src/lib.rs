//! Planar coverage computations: how much of a subject multi-polygon is
//! covered by a list of candidate multi-polygons, what region is left over,
//! and what each candidate contributes on its own.

pub mod geometry;
pub mod leftover;
pub mod types;
