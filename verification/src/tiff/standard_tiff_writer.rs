use vstd::prelude::*;

use tiff::encoder::colortype::{Gray16, RGB16};
use tiff::encoder::compression::DeflateLevel;
use tiff::encoder::{Compression, TiffEncoder};
use tiff::tags::Predictor;

use crate::common::error::ConversionError;
use crate::debayer::types::{RgbImageData, RgbImageDataView};
use crate::raw::types::{RawImageData, RawImageDataView};
use crate::tiff::types::{ConversionConfig, TiffCompression};
use crate::tiff::writer::TiffWriter;

verus! {

/// The outcome of encoding the given samples as a 16-bit grayscale TIFF
/// under the given compression code and predictor choice: the file's bytes,
/// or `None` where the encoder refuses the input.
///
/// On the 64-bit little-endian hosts this crate targets, the outcome is a
/// function of these arguments alone; the encoder writes multi-byte values
/// in the machine's byte order, so the bytes would differ on a big-endian
/// machine.
pub uninterp spec fn gray16_tiff(
    width: int,
    height: int,
    samples: Seq<u16>,
    compression: int,
    horizontal_predictor: bool,
) -> Option<Seq<u8>>;

/// The outcome of encoding the given samples as a 16-bit interleaved-RGB
/// TIFF under the given compression code and predictor choice: the file's
/// bytes, or `None` where the encoder refuses the input.
///
/// The same byte-order caveat applies as for [`gray16_tiff`].
pub uninterp spec fn rgb16_tiff(
    width: int,
    height: int,
    samples: Seq<u16>,
    compression: int,
    horizontal_predictor: bool,
) -> Option<Seq<u8>>;

/// The wire code this writer hands to the encoder for each compression
/// method.
pub open spec fn spec_compression_code(c: TiffCompression) -> u8 {
    match c {
        TiffCompression::Uncompressed => 0u8,
        TiffCompression::Lzw => 1u8,
        TiffCompression::DeflateFast => 2u8,
        TiffCompression::DeflateBalanced => 3u8,
        TiffCompression::DeflateBest => 4u8,
    }
}

/// Whether a predictor setting selects horizontal differencing: only the
/// documented value 2 does.
pub open spec fn spec_horizontal_predictor(p: Option<u16>) -> bool {
    p == Some(2u16)
}

/// Relies on tiff's TiffEncoder and write_image::<Gray16>: the encoding is
/// deterministic in the samples and settings (see [`gray16_tiff`]), and it
/// fails only when a dimension truncates to zero, the buffer does not cover
/// the dimensions, or the image is so large that the standard TIFF offsets
/// could overflow (the stated bound keeps the file far below that limit);
/// failures are reported as errors, never panics.
#[verifier::external_body]
pub(crate) fn encode_gray16(
    samples: &Vec<u16>,
    width: usize,
    height: usize,
    compression: u8,
    horizontal: bool,
) -> (r: Result<Vec<u8>, String>)
    ensures
        r is Ok <==> gray16_tiff(
            width as int,
            height as int,
            samples@,
            compression as int,
            horizontal,
        ) is Some,
        r matches Ok(bytes) ==> gray16_tiff(
            width as int,
            height as int,
            samples@,
            compression as int,
            horizontal,
        ) == Some(bytes@),
        r is Ok ==> ((width as u32) != 0 && (height as u32) != 0 && samples@.len() >= ((
        width as u32) as int) * ((height as u32) as int)),
        r is Err ==> ((width as u32) == 0 || (height as u32) == 0 || samples@.len() < ((
        width as u32) as int) * ((height as u32) as int) || samples@.len() > 0x1000_0000),
{
    let compression = match compression {
        0 => Compression::Uncompressed,
        1 => Compression::Lzw,
        2 => Compression::Deflate(DeflateLevel::Fast),
        3 => Compression::Deflate(DeflateLevel::Balanced),
        _ => Compression::Deflate(DeflateLevel::Best),
    };
    let predictor = if horizontal { Predictor::Horizontal } else { Predictor::None };
    let mut buffer: Vec<u8> = Vec::new();
    let mut encoder = match TiffEncoder::new(std::io::Cursor::new(&mut buffer)) { Ok(e) => e, Err(e) => return Err(e.to_string()) };
    encoder = encoder.with_compression(compression).with_predictor(predictor);
    match encoder.write_image::<Gray16>(width as u32, height as u32, samples) {
        Ok(()) => Ok(buffer),
        Err(e) => Err(e.to_string()),
    }
}

/// Relies on tiff's TiffEncoder and write_image::<RGB16>: the encoding is
/// deterministic in the samples and settings (see [`rgb16_tiff`]). The
/// encoder indexes up to `3 * width * height` samples (with the dimensions
/// truncated to 32 bits, hence never enlarged) once the buffer passes its
/// weaker per-pixel size check, so a smaller buffer is left out. Under that
/// bound it fails only when a dimension truncates to zero or the image is so
/// large that the standard TIFF offsets could overflow; failures are
/// reported as errors, never panics.
#[verifier::external_body]
fn encode_rgb16(
    samples: &Vec<u16>,
    width: usize,
    height: usize,
    compression: u8,
    horizontal: bool,
) -> (r: Result<Vec<u8>, String>)
    requires
        samples@.len() >= 3 * (width as int) * (height as int),
    ensures
        r is Ok <==> rgb16_tiff(
            width as int,
            height as int,
            samples@,
            compression as int,
            horizontal,
        ) is Some,
        r matches Ok(bytes) ==> rgb16_tiff(
            width as int,
            height as int,
            samples@,
            compression as int,
            horizontal,
        ) == Some(bytes@),
        r is Ok ==> ((width as u32) != 0 && (height as u32) != 0),
        r is Err ==> ((width as u32) == 0 || (height as u32) == 0 || samples@.len()
            > 0x1000_0000),
{
    let compression = match compression {
        0 => Compression::Uncompressed,
        1 => Compression::Lzw,
        2 => Compression::Deflate(DeflateLevel::Fast),
        3 => Compression::Deflate(DeflateLevel::Balanced),
        _ => Compression::Deflate(DeflateLevel::Best),
    };
    let predictor = if horizontal { Predictor::Horizontal } else { Predictor::None };
    let mut buffer: Vec<u8> = Vec::new();
    let mut encoder = match TiffEncoder::new(std::io::Cursor::new(&mut buffer)) { Ok(e) => e, Err(e) => return Err(e.to_string()) };
    encoder = encoder.with_compression(compression).with_predictor(predictor);
    match encoder.write_image::<RGB16>(width as u32, height as u32, samples) {
        Ok(()) => Ok(buffer),
        Err(e) => Err(e.to_string()),
    }
}

/// The TIFF writer backed by the standard encoder.
pub struct StandardTiffWriter;

impl StandardTiffWriter {
    /// The wire code for a compression method.
    pub fn get_compression(compression: TiffCompression) -> (c: u8)
        ensures
            c == spec_compression_code(compression),
    {
        match compression {
            TiffCompression::Uncompressed => 0,
            TiffCompression::Lzw => 1,
            TiffCompression::DeflateFast => 2,
            TiffCompression::DeflateBalanced => 3,
            TiffCompression::DeflateBest => 4,
        }
    }

    /// Whether a configuration's predictor selects horizontal differencing.
    fn horizontal_predictor(config: &ConversionConfig) -> (h: bool)
        ensures
            h == spec_horizontal_predictor(config.predictor),
    {
        match config.predictor {
            Some(v) => v == 2,
            None => false,
        }
    }
}

impl TiffWriter for StandardTiffWriter {
    open spec fn gray_write_ok(&self, image: RawImageDataView, config: ConversionConfig) -> Option<
        Seq<u8>,
    > {
        gray16_tiff(
            image.width as int,
            image.height as int,
            image.data,
            spec_compression_code(config.compression) as int,
            spec_horizontal_predictor(config.predictor),
        )
    }

    open spec fn rgb_write_ok(&self, image: RgbImageDataView, config: ConversionConfig) -> Option<
        Seq<u8>,
    > {
        rgb16_tiff(
            image.width as int,
            image.height as int,
            image.data,
            spec_compression_code(config.compression) as int,
            spec_horizontal_predictor(config.predictor),
        )
    }

    open spec fn gray_write_guaranteed(
        &self,
        image: RawImageDataView,
        config: ConversionConfig,
    ) -> bool {
        (image.width as u32) != 0 && (image.height as u32) != 0 && image.data.len() >= ((
        image.width as u32) as int) * ((image.height as u32) as int) && image.data.len()
            <= 0x1000_0000
    }

    open spec fn rgb_write_guaranteed(
        &self,
        image: RgbImageDataView,
        config: ConversionConfig,
    ) -> bool {
        (image.width as u32) != 0 && (image.height as u32) != 0 && image.data.len()
            <= 0x1000_0000
    }

    open spec fn gray_write_err_ok(
        &self,
        image: RawImageDataView,
        config: ConversionConfig,
        e: ConversionError,
    ) -> bool {
        e is EncodeError
    }

    open spec fn rgb_write_err_ok(
        &self,
        image: RgbImageDataView,
        config: ConversionConfig,
        e: ConversionError,
    ) -> bool {
        e is EncodeError
    }

    fn write_tiff(&self, image: &RawImageData, config: &ConversionConfig) -> (r: Result<
        Vec<u8>,
        ConversionError,
    >) {
        let code = Self::get_compression(config.compression);
        let horizontal = Self::horizontal_predictor(config);
        match encode_gray16(&image.data, image.width, image.height, code, horizontal) {
            Ok(bytes) => Ok(bytes),
            Err(msg) => Err(ConversionError::EncodeError(msg)),
        }
    }

    fn write_rgb_tiff(&self, image: &RgbImageData, config: &ConversionConfig) -> (r: Result<
        Vec<u8>,
        ConversionError,
    >) {
        let code = Self::get_compression(config.compression);
        let horizontal = Self::horizontal_predictor(config);
        match encode_rgb16(&image.data, image.width, image.height, code, horizontal) {
            Ok(bytes) => Ok(bytes),
            Err(msg) => Err(ConversionError::EncodeError(msg)),
        }
    }
}

} // verus!
