//! Orchestration of image format conversions.

pub mod raw_to_tiff;

pub use raw_to_tiff::RawToTiffPipeline;
