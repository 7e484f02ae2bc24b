//! Renders raster images as colored ASCII art sized to a terminal.
//!
//! The pipeline: plan a sampling stride from image and terminal
//! dimensions, walk the sampled grid, map each pixel's luminance to a
//! glyph by nearest-value lookup in a fixed table, and assemble the
//! styled text one line per sampled row.

pub mod classify;
pub mod driver;
pub mod palette;
pub mod plan;
pub mod render;
