//! Codec for the point-family records of the ESRI shapefile binary format:
//! the plain 2-D point, the measured point (with a linear-referencing value
//! M), and the elevation point (with Z and M). These are the fixed-size leaf
//! records of the format; variable-length shapes, file headers and attribute
//! tables are out of scope and belong to the caller that owns the byte
//! stream.
//!
//! The format stores every coordinate, measure and elevation as a
//! little-endian IEEE-754 double. This crate works on the raw 64-bit pattern
//! of each such field, so that the byte layout, the bounding-box and range
//! derivation rules, and the round-trip behaviour are stated and proved
//! exactly, bit for bit. A caller that wants floating-point values converts
//! with `f64::to_bits` / `f64::from_bits` at its own edge.

pub mod record;
