//! Combines two raster images into one by alternating their pixels.
//!
//! Two images of possibly different size are first brought to a common
//! resolution (the one with fewer pixels), then their RGBA pixel streams are
//! interleaved and the result is placed in a fixed-capacity output buffer.

pub mod buffer;
pub mod errors;
pub mod interleave;
pub mod pipeline;
pub mod raster;
pub mod reconcile;
