//! Verified core of a terminal Mandelbrot viewer.
//!
//! The crate holds every decision the viewer makes on whole numbers and
//! characters: how an escape count becomes a glyph, how a raster is filled
//! cell by cell, when an orbit search stops, and what a key press means.

pub mod control;
pub mod escape;
pub mod field;
pub mod glyph;
