//! A RAW-to-TIFF image conversion library.
//!
//! The crate decodes Bayer-pattern sensor frames, validates their dimensions,
//! optionally demosaics them to RGB, and encodes the result as a TIFF image.
//! Reading RAW containers and writing TIFF bytes are delegated to collaborator
//! traits so that the orchestration logic here is independent of any concrete
//! decoder or encoder.

pub mod arw_to_tiff;
pub mod common;
pub mod conversions;
pub mod debayer;
pub mod raw;
pub mod tiff;

pub use common::ConversionError;
pub use conversions::RawToTiffPipeline;
pub use debayer::{CpuDebayer, Debayer, RgbImageData};
pub use raw::{RawImageData, RawImageReader};
pub use tiff::{
    ConversionConfig, ConversionConfigBuilder, StandardTiffWriter, TiffCompression, TiffWriter,
};
