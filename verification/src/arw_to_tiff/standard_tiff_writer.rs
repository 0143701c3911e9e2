use vstd::prelude::*;

use crate::arw_to_tiff::error::ConversionError;
use crate::arw_to_tiff::types::{ConversionConfig, RawImageData, RawImageDataView, TiffCompression};
use crate::arw_to_tiff::writer::TiffWriter;
use crate::tiff::standard_tiff_writer::{encode_gray16, gray16_tiff};

verus! {

/// The wire code this writer hands to the encoder for each compression
/// method; `Deflate` selects the encoder's fast level.
pub open spec fn spec_compression_code(c: TiffCompression) -> u8 {
    match c {
        TiffCompression::Uncompressed => 0u8,
        TiffCompression::Lzw => 1u8,
        TiffCompression::Deflate => 2u8,
    }
}

/// Whether a predictor setting selects horizontal differencing: only the
/// documented value 2 does.
pub open spec fn spec_horizontal_predictor(p: Option<u16>) -> bool {
    p == Some(2u16)
}

/// The TIFF writer backed by the standard encoder.
pub struct StandardTiffWriter;

impl StandardTiffWriter {
    fn get_compression(compression: TiffCompression) -> (c: u8)
        ensures
            c == spec_compression_code(compression),
    {
        match compression {
            TiffCompression::Uncompressed => 0,
            TiffCompression::Lzw => 1,
            TiffCompression::Deflate => 2,
        }
    }

    fn horizontal_predictor(config: &ConversionConfig) -> (h: bool)
        ensures
            h == spec_horizontal_predictor(config.predictor),
    {
        match config.predictor {
            Some(v) => v == 2,
            None => false,
        }
    }
}

impl TiffWriter for StandardTiffWriter {
    open spec fn write_ok(&self, image: RawImageDataView, config: ConversionConfig) -> Option<
        Seq<u8>,
    > {
        gray16_tiff(
            image.width as int,
            image.height as int,
            image.data,
            spec_compression_code(config.compression) as int,
            spec_horizontal_predictor(config.predictor),
        )
    }

    open spec fn write_guaranteed(
        &self,
        image: RawImageDataView,
        config: ConversionConfig,
    ) -> bool {
        (image.width as u32) != 0 && (image.height as u32) != 0 && image.data.len() >= ((
        image.width as u32) as int) * ((image.height as u32) as int) && image.data.len()
            <= 0x1000_0000
    }

    open spec fn write_err_ok(
        &self,
        image: RawImageDataView,
        config: ConversionConfig,
        e: ConversionError,
    ) -> bool {
        e is EncodeError
    }

    fn write_tiff(&self, image: &RawImageData, config: &ConversionConfig) -> (r: Result<
        Vec<u8>,
        ConversionError,
    >) {
        let code = Self::get_compression(config.compression);
        let horizontal = Self::horizontal_predictor(config);
        match encode_gray16(&image.data, image.width, image.height, code, horizontal) {
            Ok(bytes) => Ok(bytes),
            Err(msg) => Err(ConversionError::EncodeError(msg)),
        }
    }
}

} // verus!
