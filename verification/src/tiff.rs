//! TIFF writing: configuration, the writer collaborator trait, and the
//! standard encoder-backed writer.

pub mod standard_tiff_writer;
pub mod types;
pub mod writer;

pub use standard_tiff_writer::StandardTiffWriter;
pub use types::{ConversionConfig, ConversionConfigBuilder, TiffCompression};
pub use writer::TiffWriter;
