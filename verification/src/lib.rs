//! Repacks a grid-organized sprite sheet: slices a source raster image into
//! equally sized rectangular frames arranged in a row-major grid, then
//! re-emits those frames into a new raster image with a caller-chosen number
//! of frames per row.

pub mod copier;
pub mod geometry;
pub mod indexer;
pub mod parse;
pub mod raster;
pub mod repack;
