use vstd::prelude::*;

use crate::arw_to_tiff::error::ConversionError;
use crate::arw_to_tiff::reader::RawImageReader;
use crate::arw_to_tiff::timing::{PipelineTimings, Timer};
use crate::arw_to_tiff::types::ConversionConfig;
use crate::arw_to_tiff::writer::TiffWriter;

verus! {

/// Whether the given dimensions pass validation under the given
/// configuration: validation off accepts anything; validation on demands
/// positive dimensions, both within the configured bound if there is one.
pub open spec fn spec_dims_ok(config: ConversionConfig, width: usize, height: usize) -> bool {
    !config.validate_dimensions || (width > 0 && height > 0 && (match config.max_dimension {
        Some(m) => width <= m && height <= m,
        None => true,
    }))
}

/// The ARW-to-TIFF pipeline: decode, validate, encode.
pub struct ArwToTiffPipeline<R: RawImageReader, W: TiffWriter> {
    reader: R,
    writer: W,
    config: ConversionConfig,
}

impl<R: RawImageReader, W: TiffWriter> ArwToTiffPipeline<R, W> {
    /// The reader this pipeline decodes with.
    pub closed spec fn spec_reader(&self) -> R {
        self.reader
    }

    /// The writer this pipeline encodes with.
    pub closed spec fn spec_writer(&self) -> W {
        self.writer
    }

    /// The active configuration.
    pub closed spec fn spec_config(&self) -> ConversionConfig {
        self.config
    }

    /// Assembles a pipeline from a reader, a writer and a configuration.
    pub fn with_custom(reader: R, writer: W, config: ConversionConfig) -> (r: Self)
        ensures
            r.spec_reader() == reader,
            r.spec_writer() == writer,
            r.spec_config() == config,
    {
        ArwToTiffPipeline { reader, writer, config }
    }

    /// Checks the decoded frame's dimensions against the configuration.
    pub fn validate_dimensions(&self, width: usize, height: usize) -> (r: Result<
        (),
        ConversionError,
    >)
        ensures
            r is Ok <==> spec_dims_ok(self.spec_config(), width, height),
            r matches Err(e) ==> e == ConversionError::InvalidDimensions(width, height),
    {
        if !self.config.validate_dimensions {
            return Ok(());
        }
        if width == 0 || height == 0 {
            return Err(ConversionError::InvalidDimensions(width, height));
        }
        if let Some(max) = self.config.max_dimension {
            if width > max || height > max {
                return Err(ConversionError::InvalidDimensions(width, height));
            }
        }
        Ok(())
    }

    /// Converts one ARW input to TIFF bytes: decodes it through the reader,
    /// validates the dimensions, and encodes it through the writer. The
    /// first failing stage ends the conversion, its error returned
    /// unchanged; when every stage succeeds the result is exactly the
    /// writer's encoding of the decoded frame.
    pub fn convert(&self, input_data: &[u8]) -> (r: Result<Vec<u8>, ConversionError>)
        ensures
            (self.spec_reader().read_result(input_data@) matches Err(e) ==> r == Err::<
                Vec<u8>,
                ConversionError,
            >(e)),
            (match self.spec_reader().read_result(input_data@) {
                Ok(img) => {
                    &&& !spec_dims_ok(self.spec_config(), img.width, img.height) ==> r == Err::<
                        Vec<u8>,
                        ConversionError,
                    >(ConversionError::InvalidDimensions(img.width, img.height))
                    &&& spec_dims_ok(self.spec_config(), img.width, img.height) ==> (match self
                        .spec_writer()
                        .write_ok(img, self.spec_config()) {
                        Some(bytes) => r matches Ok(b) && b@ == bytes,
                        None => r matches Err(e) && self.spec_writer().write_err_ok(
                            img,
                            self.spec_config(),
                            e,
                        ),
                    })
                    &&& (spec_dims_ok(self.spec_config(), img.width, img.height) && self
                        .spec_writer()
                        .write_guaranteed(img, self.spec_config())) ==> r is Ok
                },
                Err(_) => true,
            }),
    {
        match self.convert_with_timings(input_data) {
            Ok((bytes, _timings)) => Ok(bytes),
            Err(e) => Err(e),
        }
    }

    /// Converts as [`Self::convert`] does, and also reports how long each
    /// stage took: on success, one step each for decoding, validation and
    /// encoding, in that order.
    pub fn convert_with_timings(&self, input_data: &[u8]) -> (r: Result<
        (Vec<u8>, PipelineTimings),
        ConversionError,
    >)
        ensures
            (self.spec_reader().read_result(input_data@) matches Err(e) ==> r == Err::<
                (Vec<u8>, PipelineTimings),
                ConversionError,
            >(e)),
            (match self.spec_reader().read_result(input_data@) {
                Ok(img) => {
                    &&& !spec_dims_ok(self.spec_config(), img.width, img.height) ==> r == Err::<
                        (Vec<u8>, PipelineTimings),
                        ConversionError,
                    >(ConversionError::InvalidDimensions(img.width, img.height))
                    &&& spec_dims_ok(self.spec_config(), img.width, img.height) ==> (match self
                        .spec_writer()
                        .write_ok(img, self.spec_config()) {
                        Some(bytes) => r matches Ok(p) && p.0@ == bytes,
                        None => r matches Err(e) && self.spec_writer().write_err_ok(
                            img,
                            self.spec_config(),
                            e,
                        ),
                    })
                    &&& (spec_dims_ok(self.spec_config(), img.width, img.height) && self
                        .spec_writer()
                        .write_guaranteed(img, self.spec_config())) ==> r is Ok
                },
                Err(_) => true,
            }),
            (r matches Ok(p) ==> p.1@.len() == 3 && p.1@[0].0 == "decode_raw"@ && p.1@[1].0
                == "validate_dimensions"@ && p.1@[2].0 == "encode_tiff"@),
    {
        let mut timings = PipelineTimings::new();

        let timer = Timer::start("decode_raw".to_owned());
        let raw_image = match self.reader.read_raw(input_data) {
            Ok(img) => img,
            Err(e) => {
                return Err(e);
            },
        };
        let (name, duration) = timer.stop();
        timings.add_step(name, duration);

        let timer = Timer::start("validate_dimensions".to_owned());
        match self.validate_dimensions(raw_image.width, raw_image.height) {
            Ok(()) => {},
            Err(e) => {
                return Err(e);
            },
        }
        let (name, duration) = timer.stop();
        timings.add_step(name, duration);

        let timer = Timer::start("encode_tiff".to_owned());
        let bytes = match self.writer.write_tiff(&raw_image, &self.config) {
            Ok(b) => b,
            Err(e) => {
                return Err(e);
            },
        };
        let (name, duration) = timer.stop();
        timings.add_step(name, duration);

        Ok((bytes, timings))
    }

    /// The active configuration.
    pub fn config(&self) -> (r: &ConversionConfig)
        ensures
            *r == self.spec_config(),
    {
        &self.config
    }

    /// Replaces the configuration; the reader and writer stay.
    pub fn set_config(&mut self, config: ConversionConfig)
        ensures
            final(self).spec_config() == config,
            final(self).spec_reader() == old(self).spec_reader(),
            final(self).spec_writer() == old(self).spec_writer(),
    {
        self.config = config;
    }
}

} // verus!
