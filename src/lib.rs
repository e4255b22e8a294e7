//! A stereoscopic wireframe viewer for regular solids and four-dimensional
//! polytopes: rotation, the fold from four dimensions to three, the two-eye
//! camera, and depth ordering and shading of the edges.
//!
//! All of it is fixed-point. Coordinates are in micro-units (a million to
//! the unit), angles in micro-degrees, screen positions in micro-pixels and
//! grays in thousandths. The cosine and sine of each angle come from the
//! caller as a `Trig` pair in micro-units.

pub mod fixed;
pub mod geometry;
pub mod catalog;
pub mod view;
pub mod camera;
pub mod depth;
pub mod clip;
pub mod frame;
