//! Shared utilities of the image pipeline.

pub mod error;

pub use error::ConversionError;
