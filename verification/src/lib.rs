//! Adaptive orbit/zoom camera control.
//!
//! All distances, coordinates and speed coefficients are fixed-point values
//! carrying [`zoom::SCALE`] units per whole unit, so that the shaping of the
//! zoom speed is exact integer arithmetic with proved bounds.

pub mod controller;
pub mod zoom;
