//! Recovery of a per-pixel alpha channel from two renderings of the same
//! scene, one over a solid black background and one over a solid white
//! background (difference matting).
//!
//! The pipeline has four stages, each a verified function:
//! classification of the two input rasters ([`classify`]), the per-pixel
//! alpha-recovery transform ([`transform`]), combination of the two rasters
//! into a high-precision intermediate ([`raster`]), and materialization of
//! the final raster in the planned bit depth and channel layout
//! ([`raster`]).  [`pipeline`] chains the four, and [`round_trip`] proves
//! that the transform recovers a synthetic scene exactly.  Decoding and
//! encoding of image files is left to callers; the library works on plain
//! quantized samples.

pub mod classify;
pub mod transform;
pub mod raster;
pub mod pipeline;
pub mod round_trip;
