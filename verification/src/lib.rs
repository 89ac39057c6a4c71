//! A geospatial sampling engine: bilinear lookup of elevation data from an
//! equirectangular raster, an adapter over a hexagonal global grid, an
//! assembler mapping grid cells to elevations, and a perceptual
//! elevation-to-color encoding.
//!
//! All quantities are exact rationals held as integer numerators over fixed
//! public denominators, so every contract is stated and proved exactly.

pub mod assemble;
pub mod cells;
pub mod color;
pub mod errors;
pub mod geo;
pub mod raster;
