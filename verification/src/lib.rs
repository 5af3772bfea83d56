//! A verified engine for visualizing modular arithmetic.
//!
//! Natural numbers are laid out as labeled points on concentric rings; a
//! time-driven reveal policy decides which points, rings and arrows are
//! visible at a given elapsed time; and an arrow-geometry routine shortens a
//! directed segment so it clears the circular markers at its endpoints.
//!
//! All geometry is exact: slot angles are whole degrees, ring radii are
//! integer lengths, and the arrow shrink factor of one twentieth is carried
//! as a fixed-point scale. A renderer converts these to screen coordinates.

pub mod config;
pub mod layout;
pub mod clock;
pub mod arrow;
pub mod session;
