use vstd::prelude::*;

use crate::common::error::ConversionError;
use crate::raw::types::{RawImageData, RawImageDataView};

verus! {

/// A RAW decoder collaborator: parses the bytes of a RAW container into a
/// [`RawImageData`].
///
/// Decoding is a pure function of the input bytes, captured by
/// `read_result`: a call returns exactly that outcome — the decoded frame,
/// or the error value, unchanged. Implementations outside this crate are not
/// verified against this contract.
pub trait RawImageReader {
    /// The outcome this reader decodes from the given bytes: the frame, or
    /// the error it reports.
    open spec fn read_result(&self, data: Seq<u8>) -> Result<RawImageDataView, ConversionError> {
        vstd::pervasive::arbitrary()
    }

    /// Decodes RAW bytes into a frame.
    fn read_raw(&self, data: &[u8]) -> (r: Result<RawImageData, ConversionError>)
        ensures
            (r matches Ok(img) ==> self.read_result(data@) == Ok::<
                RawImageDataView,
                ConversionError,
            >(img@)),
            (r matches Err(e) ==> self.read_result(data@) == Err::<
                RawImageDataView,
                ConversionError,
            >(e)),
    ;
}

} // verus!
