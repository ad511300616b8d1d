//! Batch rendering of tabular records into symbol images.
//!
//! Rows of an identifier and a payload are grouped into batches, the payload
//! of each row is encoded into a symbol, and the symbol is rendered as a
//! vector or raster image. Reading the sources and writing the images is
//! left to the caller.

pub mod chunker;
pub mod exporter;
pub mod generator;
pub mod geometry;
pub mod matrix;
pub mod options;
pub mod raster;
pub mod settings;
pub mod source;
pub mod symbol;
