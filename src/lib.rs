//! Rasterisation of straight line segments onto an integer pixel grid.
//!
//! The integer-only (Bresenham) algorithm is verified against a closed-form
//! description of the pixels it plots; command-line arguments are parsed by a
//! verified function as well.

pub mod args;
pub mod laws;
pub mod line;
pub mod offset;
pub mod raster;
pub mod steps;

pub use args::{parse_args, Config};
pub use line::Line;
pub use raster::{Lines, PixelCollector};
pub use steps::BresenhamSteps;
