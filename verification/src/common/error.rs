use vstd::prelude::*;

verus! {

/// Failure taxonomy of the RAW-to-TIFF pipeline.
///
/// Every stage reports its failure as one of these variants; the pipeline
/// returns the first failure unchanged and never retries a stage.
#[derive(Debug, Clone)]
pub enum ConversionError {
    /// The input file could not be read.
    InputReadError(String),
    /// The output file could not be written.
    OutputWriteError(String),
    /// The RAW container was malformed or unsupported.
    DecodeError(String),
    /// The TIFF encoder reported a failure.
    EncodeError(String),
    /// The decoded frame's width and height were rejected by validation.
    InvalidDimensions(usize, usize),
    /// The frame's format cannot be handled by the requested operation.
    UnsupportedFormat(String),
    /// A GPU device, transfer, kernel or primitive failure.
    CudaError(String),
    /// Any other input/output failure.
    IoError(String),
}

} // verus!
