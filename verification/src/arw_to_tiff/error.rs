use vstd::prelude::*;

verus! {

/// Failure taxonomy of the ARW-to-TIFF pipeline.
#[derive(Debug, Clone)]
pub enum ConversionError {
    /// The input file could not be read.
    InputReadError(String),
    /// The output file could not be written.
    OutputWriteError(String),
    /// The ARW container was malformed or unsupported.
    DecodeError(String),
    /// The TIFF encoder reported a failure.
    EncodeError(String),
    /// The decoded frame's width and height were rejected by validation.
    InvalidDimensions(usize, usize),
    /// The frame's color space or bit depth is unsupported.
    UnsupportedFormat,
    /// Any other input/output failure.
    IoError(String),
}

} // verus!
