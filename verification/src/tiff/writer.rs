use vstd::prelude::*;

use crate::common::error::ConversionError;
use crate::debayer::types::{RgbImageData, RgbImageDataView};
use crate::raw::types::{RawImageData, RawImageDataView};
use crate::tiff::types::ConversionConfig;

verus! {

/// A TIFF encoder collaborator.
///
/// Encoding is a pure function of the frame and the configuration, captured
/// by `gray_write_ok` and `rgb_write_ok`: a call succeeds exactly where the
/// spec is `Some`, and then returns those bytes; a failing call reports an
/// error the implementation admits under `gray_write_err_ok` /
/// `rgb_write_err_ok`. Implementations outside this crate are not verified
/// against this contract.
pub trait TiffWriter {
    /// The bytes this writer produces for a grayscale frame, or `None`
    /// where it fails.
    open spec fn gray_write_ok(&self, image: RawImageDataView, config: ConversionConfig) -> Option<
        Seq<u8>,
    > {
        vstd::pervasive::arbitrary()
    }

    /// The bytes this writer produces for an RGB frame, or `None` where it
    /// fails.
    open spec fn rgb_write_ok(&self, image: RgbImageDataView, config: ConversionConfig) -> Option<
        Seq<u8>,
    > {
        vstd::pervasive::arbitrary()
    }

    /// Inputs on which this writer owes success; nothing is owed by
    /// default.
    open spec fn gray_write_guaranteed(&self, image: RawImageDataView, config: ConversionConfig) -> bool {
        false
    }

    /// Inputs on which this writer owes success; nothing is owed by
    /// default.
    open spec fn rgb_write_guaranteed(&self, image: RgbImageDataView, config: ConversionConfig) -> bool {
        false
    }

    /// Which errors this writer may report for a grayscale frame.
    open spec fn gray_write_err_ok(
        &self,
        image: RawImageDataView,
        config: ConversionConfig,
        e: ConversionError,
    ) -> bool {
        true
    }

    /// Which errors this writer may report for an RGB frame.
    open spec fn rgb_write_err_ok(
        &self,
        image: RgbImageDataView,
        config: ConversionConfig,
        e: ConversionError,
    ) -> bool {
        true
    }

    /// Encodes a single-channel frame as a 16-bit grayscale TIFF.
    fn write_tiff(&self, image: &RawImageData, config: &ConversionConfig) -> (r: Result<
        Vec<u8>,
        ConversionError,
    >)
        ensures
            (r matches Ok(bytes) ==> self.gray_write_ok(image@, *config) matches Some(s) && bytes@
                == s),
            (self.gray_write_ok(image@, *config) is Some ==> r is Ok),
            (self.gray_write_guaranteed(image@, *config) ==> r is Ok),
            (r matches Err(e) ==> self.gray_write_err_ok(image@, *config, e)),
    ;

    /// Encodes an interleaved RGB frame as a 16-bit RGB TIFF. The frame must
    /// be well-formed: one triplet per pixel.
    fn write_rgb_tiff(&self, image: &RgbImageData, config: &ConversionConfig) -> (r: Result<
        Vec<u8>,
        ConversionError,
    >)
        requires
            image@.data.len() == 3 * image@.width * image@.height,
        ensures
            (r matches Ok(bytes) ==> self.rgb_write_ok(image@, *config) matches Some(s) && bytes@
                == s),
            (self.rgb_write_ok(image@, *config) is Some ==> r is Ok),
            (self.rgb_write_guaranteed(image@, *config) ==> r is Ok),
            (r matches Err(e) ==> self.rgb_write_err_ok(image@, *config, e)),
    ;
}

} // verus!
