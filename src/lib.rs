//! Window surface lifecycle and escape-time raster, with their contracts.
pub mod lifecycle;
pub mod raster;
