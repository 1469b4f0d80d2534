//! A small image library: a rectangular grid of 8-bit RGB pixels, built
//! either zero-filled or from a per-cell initializer, and serialized to the
//! plain-text PPM pixel-map format.

pub mod image;
pub mod ppm;
