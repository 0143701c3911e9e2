use vstd::prelude::*;

use crate::common::error::ConversionError;
use crate::debayer::Debayer;
use crate::raw::reader::RawImageReader;
use crate::tiff::types::ConversionConfig;
use crate::tiff::writer::TiffWriter;

verus! {

/// Whether the given dimensions pass validation under the given
/// configuration: validation off accepts anything; validation on demands
/// positive dimensions.
pub open spec fn spec_dims_ok(config: ConversionConfig, width: usize, height: usize) -> bool {
    !config.validate_dimensions || (width > 0 && height > 0)
}

/// The RAW-to-TIFF pipeline: decode, validate, optionally debayer, encode.
///
/// With a debayer backend in place the frame is converted to RGB before
/// encoding; without one the single-channel Bayer data is written as 16-bit
/// grayscale.
pub struct RawToTiffPipeline<R: RawImageReader, W: TiffWriter, D: Debayer> {
    reader: R,
    writer: W,
    config: ConversionConfig,
    debayer: Option<D>,
}

impl<R: RawImageReader, W: TiffWriter, D: Debayer> RawToTiffPipeline<R, W, D> {
    /// The reader this pipeline decodes with.
    pub closed spec fn spec_reader(&self) -> R {
        self.reader
    }

    /// The writer this pipeline encodes with.
    pub closed spec fn spec_writer(&self) -> W {
        self.writer
    }

    /// The active configuration.
    pub closed spec fn spec_config(&self) -> ConversionConfig {
        self.config
    }

    /// The debayer backend, if the pipeline converts to RGB.
    pub closed spec fn spec_debayer(&self) -> Option<D> {
        self.debayer
    }

    /// Assembles a pipeline from a reader, a writer, an optional debayer
    /// backend and a configuration.
    pub fn with_custom(reader: R, writer: W, debayer: Option<D>, config: ConversionConfig) -> (r:
        Result<Self, ConversionError>)
        ensures
            (r matches Ok(p) ==> p.spec_reader() == reader && p.spec_writer() == writer
                && p.spec_debayer() == debayer && p.spec_config() == config),
            r is Ok,
    {
        Ok(RawToTiffPipeline { reader, writer, config, debayer })
    }

    /// Checks the decoded frame's dimensions against the configuration.
    pub fn validate_dimensions(&self, width: usize, height: usize) -> (r: Result<
        (),
        ConversionError,
    >)
        ensures
            r is Ok <==> spec_dims_ok(self.spec_config(), width, height),
            r matches Err(e) ==> e == ConversionError::InvalidDimensions(width, height),
    {
        if !self.config.validate_dimensions {
            return Ok(());
        }
        if width == 0 || height == 0 {
            return Err(ConversionError::InvalidDimensions(width, height));
        }
        Ok(())
    }

    /// Converts one RAW input to TIFF bytes: decodes it through the reader,
    /// validates the dimensions, debayers to RGB when a backend is in
    /// place, and encodes through the writer. The first failing stage ends
    /// the conversion: the reader's error is returned unchanged, a rejected
    /// frame yields `InvalidDimensions`, a debayer failure surfaces as
    /// `CudaError` carrying the backend's message, and a writer failure is
    /// the writer's own error; when every stage succeeds the result is
    /// exactly the writer's encoding.
    pub fn convert(&self, input_data: &[u8]) -> (r: Result<Vec<u8>, ConversionError>)
        ensures
            (self.spec_reader().read_result(input_data@) matches Err(e) ==> r == Err::<
                Vec<u8>,
                ConversionError,
            >(e)),
            (match self.spec_reader().read_result(input_data@) {
                Ok(img) => {
                    &&& !spec_dims_ok(self.spec_config(), img.width, img.height) ==> r == Err::<
                        Vec<u8>,
                        ConversionError,
                    >(ConversionError::InvalidDimensions(img.width, img.height))
                    &&& (spec_dims_ok(self.spec_config(), img.width, img.height)
                        && self.spec_debayer() is None) ==> (match self.spec_writer().gray_write_ok(
                        img,
                        self.spec_config(),
                    ) {
                        Some(bytes) => r matches Ok(b) && b@ == bytes,
                        None => r matches Err(e) && self.spec_writer().gray_write_err_ok(
                            img,
                            self.spec_config(),
                            e,
                        ),
                    })
                    &&& (spec_dims_ok(self.spec_config(), img.width, img.height)
                        && self.spec_debayer() is None && self.spec_writer().gray_write_guaranteed(
                        img,
                        self.spec_config(),
                    )) ==> r is Ok
                    &&& (match self.spec_debayer() {
                        Some(d) => spec_dims_ok(self.spec_config(), img.width, img.height)
                            ==> (match d.debayer_result(img) {
                            Ok(rgb) => (match self.spec_writer().rgb_write_ok(
                                rgb,
                                self.spec_config(),
                            ) {
                                Some(bytes) => r matches Ok(b) && b@ == bytes,
                                None => r matches Err(e) && self.spec_writer().rgb_write_err_ok(
                                    rgb,
                                    self.spec_config(),
                                    e,
                                ),
                            }) && (self.spec_writer().rgb_write_guaranteed(rgb, self.spec_config())
                                ==> r is Ok),
                            Err(m) => r matches Err(e) && e matches ConversionError::CudaError(s)
                                && s@ == m,
                        }),
                        None => true,
                    })
                },
                Err(_) => true,
            }),
    {
        let raw_image = match self.reader.read_raw(input_data) {
            Ok(img) => img,
            Err(e) => {
                return Err(e);
            },
        };

        match self.validate_dimensions(raw_image.width, raw_image.height) {
            Ok(()) => {},
            Err(e) => {
                return Err(e);
            },
        }

        match &self.debayer {
            Some(debayer) => {
                let rgb_image = match debayer.process(&raw_image) {
                    Ok(img) => img,
                    Err(msg) => {
                        return Err(ConversionError::CudaError(msg));
                    },
                };
                proof {
                    assert(rgb_image@.data.len() == 3 * rgb_image@.width * rgb_image@.height);
                }
                match self.writer.write_rgb_tiff(&rgb_image, &self.config) {
                    Ok(bytes) => Ok(bytes),
                    Err(e) => Err(e),
                }
            },
            None => {
                match self.writer.write_tiff(&raw_image, &self.config) {
                    Ok(bytes) => Ok(bytes),
                    Err(e) => Err(e),
                }
            },
        }
    }

    /// The active configuration.
    pub fn config(&self) -> (r: &ConversionConfig)
        ensures
            *r == self.spec_config(),
    {
        &self.config
    }

    /// Replaces the configuration; the reader, writer and debayer stay.
    pub fn set_config(&mut self, config: ConversionConfig)
        ensures
            final(self).spec_config() == config,
            final(self).spec_reader() == old(self).spec_reader(),
            final(self).spec_writer() == old(self).spec_writer(),
            final(self).spec_debayer() == old(self).spec_debayer(),
    {
        self.config = config;
    }
}

} // verus!
