use vstd::prelude::*;

use crate::arw_to_tiff::error::ConversionError;
use crate::arw_to_tiff::types::{ConversionConfig, RawImageData, RawImageDataView};

verus! {

/// A TIFF encoder collaborator for the ARW pipeline.
///
/// Encoding is a pure function of the frame and the configuration, captured
/// by `write_ok`: a call succeeds exactly where the spec is `Some`, and then
/// returns those bytes; a failing call reports an error the implementation
/// admits under `write_err_ok`. Implementations outside this crate are not
/// verified against this contract.
pub trait TiffWriter {
    /// The bytes this writer produces for the given frame, or `None` where
    /// it fails.
    open spec fn write_ok(&self, image: RawImageDataView, config: ConversionConfig) -> Option<
        Seq<u8>,
    > {
        vstd::pervasive::arbitrary()
    }

    /// Inputs on which this writer owes success; nothing is owed by
    /// default.
    open spec fn write_guaranteed(&self, image: RawImageDataView, config: ConversionConfig) -> bool {
        false
    }

    /// Which errors this writer may report for the given frame.
    open spec fn write_err_ok(
        &self,
        image: RawImageDataView,
        config: ConversionConfig,
        e: ConversionError,
    ) -> bool {
        true
    }

    /// Encodes a single-channel frame as a 16-bit grayscale TIFF.
    fn write_tiff(&self, image: &RawImageData, config: &ConversionConfig) -> (r: Result<
        Vec<u8>,
        ConversionError,
    >)
        ensures
            (r matches Ok(bytes) ==> self.write_ok(image@, *config) matches Some(s) && bytes@
                == s),
            (self.write_ok(image@, *config) is Some ==> r is Ok),
            (self.write_guaranteed(image@, *config) ==> r is Ok),
            (r matches Err(e) ==> self.write_err_ok(image@, *config, e)),
    ;
}

} // verus!
