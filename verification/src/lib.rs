//! Procedural logo geometry: a fixed-point coordinate model, Euclidean
//! distance, viewport translation, and circle compositing over a raster
//! buffer, all with machine-checked contracts.
//!
//! Coordinates and color channels are carried as scaled integers
//! (10,000 subunits per logical unit), so every result is an exact
//! integer that the contracts pin down.

pub mod fixed;
pub mod geom_helpers;
pub mod color;
pub mod raster;
pub mod draw;

pub use fixed::FP_SCALE;
pub use fixed::floor_sqrt_u64;
pub use fixed::round_units_i64;
