//! State and rules of a point-sketching toy: clicks place points, each tagged
//! with the active drawing level, and every frame the presentation layer is
//! brought in line with the recorded points.

pub mod geometry;
pub mod drawing;
pub mod presentation;
pub mod laws;
