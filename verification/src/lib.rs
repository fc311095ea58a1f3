//! Rasterizes a single filled triangle into an in-memory pixel grid and
//! serializes that grid as an uncompressed 24-bit bitmap image.
//!
//! The interesting logic lives in two places: the integer point-in-triangle
//! test that drives the rasterizer, and the binary encoder that packs the
//! pixel grid into a valid bitmap byte stream (54-byte header, blue-green-red
//! channel order, per-row padding).  Both are specified and verified here;
//! writing the bytes to disk is left to the caller.

pub mod encoder;
pub mod frame;
pub mod geometry;
pub mod triangle;
