//! The ARW-to-TIFF conversion pipeline.
//!
//! This pipeline decodes an ARW frame through a [`reader::RawImageReader`],
//! validates its dimensions, and encodes the single-channel data as a 16-bit
//! grayscale TIFF through a [`writer::TiffWriter`].

pub mod error;
pub mod pipeline;
pub mod reader;
pub mod standard_tiff_writer;
pub mod timing;
pub mod types;
pub mod writer;

pub use error::ConversionError;
pub use pipeline::ArwToTiffPipeline;
pub use reader::RawImageReader;
pub use standard_tiff_writer::StandardTiffWriter;
pub use timing::{PipelineTimings, StepTiming, Timer};
pub use writer::TiffWriter;
pub use types::{ConversionConfig, ConversionConfigBuilder, RawImageData, TiffCompression};
