//! A flow field: a regular grid of sample points, each carrying a magnitude
//! that a caller-supplied sampler assigns, and the rule that turns each
//! magnitude into a filled circle for a canvas to draw.
//!
//! Coordinates are whole numbers. Magnitudes, radii and colour channels are
//! fixed-point numbers: a stored value `v` stands for `v / UNIT`.

pub mod error;
pub mod field;
pub mod grid;
pub mod point;
pub mod visual;
