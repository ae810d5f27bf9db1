//! Planning logic for rectangular cutouts of astronomical images.
//!
//! Given the pixel coordinates that a sky position maps to, the image
//! dimensions and a requested window size, this crate derives the integer
//! pixel window to extract, shrinking it when it would run off the image
//! edge, and derives the output header that describes the extracted window.

pub mod batch;
pub mod extract;
pub mod header;
pub mod planner;

