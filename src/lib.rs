//! Core of a Newton-fractal viewer: the editable configuration and the
//! change events that drive it, the fixed byte layout of the parameter block
//! that the per-pixel evaluator reads, and the decision the frame driver
//! takes after each attempt to acquire a frame.
//!
//! Binary32 values (root positions, colors, zoom, coefficients) are held as
//! their IEEE-754 bit patterns; the library moves and lays them out but does
//! no floating-point arithmetic.

pub mod config;
pub mod frame;
pub mod params;
