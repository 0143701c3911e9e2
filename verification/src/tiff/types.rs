use vstd::prelude::*;

verus! {

/// TIFF compression methods selectable for the output image.
#[derive(Debug, Clone, Copy)]
pub enum TiffCompression {
    /// No compression (fastest, largest file).
    Uncompressed,
    /// LZW compression (slow, good compression).
    Lzw,
    /// Deflate compression - fast level (good speed/size balance).
    DeflateFast,
    /// Deflate compression - best compression (slower).
    DeflateBest,
    /// Deflate compression - balanced.
    DeflateBalanced,
}

/// Configuration of the RAW-to-TIFF conversion.
#[derive(Debug, Clone)]
pub struct ConversionConfig {
    /// Compression method for the output image.
    pub compression: TiffCompression,
    /// Predictor value for compression; 2 selects horizontal differencing,
    /// any other value or `None` leaves the data unchanged.
    pub predictor: Option<u16>,
    /// Whether to validate image dimensions before conversion.
    pub validate_dimensions: bool,
    /// Whether to debayer the frame to RGB (`true`) or to write the
    /// single-channel Bayer data as 16-bit grayscale (`false`).
    pub debayer: bool,
}

impl ConversionConfig {
    /// The documented default configuration.
    pub open spec fn spec_default() -> ConversionConfig {
        ConversionConfig {
            compression: TiffCompression::Uncompressed,
            predictor: None,
            validate_dimensions: true,
            debayer: false,
        }
    }

    /// Starts a builder with every field unset.
    pub fn builder() -> (r: ConversionConfigBuilder)
        ensures
            r@ == ConversionConfigBuilder::spec_empty(),
    {
        ConversionConfigBuilder {
            compression: None,
            predictor: None,
            validate_dimensions: None,
            debayer: None,
        }
    }
}

impl Default for ConversionConfig {
    fn default() -> (r: Self)
        ensures
            r == ConversionConfig::spec_default(),
    {
        ConversionConfig {
            compression: TiffCompression::Uncompressed,
            predictor: None,
            validate_dimensions: true,
            debayer: false,
        }
    }
}

/// Builder for [`ConversionConfig`]: fields left unset fall back to the
/// documented defaults when the configuration is built.
#[derive(Default)]
pub struct ConversionConfigBuilder {
    compression: Option<TiffCompression>,
    predictor: Option<Option<u16>>,
    validate_dimensions: Option<bool>,
    debayer: Option<bool>,
}

/// The mathematical value of a [`ConversionConfigBuilder`]: which fields have
/// been overridden, and with what.
pub ghost struct ConversionConfigBuilderView {
    pub compression: Option<TiffCompression>,
    pub predictor: Option<Option<u16>>,
    pub validate_dimensions: Option<bool>,
    pub debayer: Option<bool>,
}

impl View for ConversionConfigBuilder {
    type V = ConversionConfigBuilderView;

    closed spec fn view(&self) -> ConversionConfigBuilderView {
        ConversionConfigBuilderView {
            compression: self.compression,
            predictor: self.predictor,
            validate_dimensions: self.validate_dimensions,
            debayer: self.debayer,
        }
    }
}

impl ConversionConfigBuilder {
    /// A builder with no field overridden.
    pub open spec fn spec_empty() -> ConversionConfigBuilderView {
        ConversionConfigBuilderView {
            compression: None,
            predictor: None,
            validate_dimensions: None,
            debayer: None,
        }
    }

    /// The configuration a builder produces: each overridden field as set,
    /// every other field at its default.
    pub open spec fn spec_build(b: ConversionConfigBuilderView) -> ConversionConfig {
        ConversionConfig {
            compression: match b.compression {
                Some(c) => c,
                None => ConversionConfig::spec_default().compression,
            },
            predictor: match b.predictor {
                Some(p) => p,
                None => ConversionConfig::spec_default().predictor,
            },
            validate_dimensions: match b.validate_dimensions {
                Some(v) => v,
                None => ConversionConfig::spec_default().validate_dimensions,
            },
            debayer: match b.debayer {
                Some(d) => d,
                None => ConversionConfig::spec_default().debayer,
            },
        }
    }

    /// Overrides the compression method.
    pub fn compression(self, compression: TiffCompression) -> (r: Self)
        ensures
            r@ == (ConversionConfigBuilderView { compression: Some(compression), ..self@ }),
    {
        ConversionConfigBuilder { compression: Some(compression), ..self }
    }

    /// Overrides the predictor value.
    pub fn predictor(self, predictor: Option<u16>) -> (r: Self)
        ensures
            r@ == (ConversionConfigBuilderView { predictor: Some(predictor), ..self@ }),
    {
        ConversionConfigBuilder { predictor: Some(predictor), ..self }
    }

    /// Overrides whether dimensions are validated.
    pub fn validate_dimensions(self, validate: bool) -> (r: Self)
        ensures
            r@ == (ConversionConfigBuilderView { validate_dimensions: Some(validate), ..self@ }),
    {
        ConversionConfigBuilder { validate_dimensions: Some(validate), ..self }
    }

    /// Overrides whether the frame is debayered.
    pub fn debayer(self, enable: bool) -> (r: Self)
        ensures
            r@ == (ConversionConfigBuilderView { debayer: Some(enable), ..self@ }),
    {
        ConversionConfigBuilder { debayer: Some(enable), ..self }
    }

    /// Produces the configuration, falling back to the defaults for every
    /// field that was not overridden.
    pub fn build(self) -> (r: ConversionConfig)
        ensures
            r == ConversionConfigBuilder::spec_build(self@),
    {
        let default = ConversionConfig::default();
        ConversionConfig {
            compression: match self.compression {
                Some(c) => c,
                None => default.compression,
            },
            predictor: match self.predictor {
                Some(p) => p,
                None => default.predictor,
            },
            validate_dimensions: match self.validate_dimensions {
                Some(v) => v,
                None => default.validate_dimensions,
            },
            debayer: match self.debayer {
                Some(d) => d,
                None => default.debayer,
            },
        }
    }
}

/// Overriding only the compression leaves every other field at its
/// documented default.
pub proof fn lemma_compression_override_keeps_defaults(c: TiffCompression)
    ensures
        ({
            let cfg = ConversionConfigBuilder::spec_build(
                ConversionConfigBuilderView {
                    compression: Some(c),
                    ..ConversionConfigBuilder::spec_empty()
                },
            );
            &&& cfg.compression == c
            &&& cfg.predictor == ConversionConfig::spec_default().predictor
            &&& cfg.validate_dimensions == ConversionConfig::spec_default().validate_dimensions
            &&& cfg.debayer == ConversionConfig::spec_default().debayer
        }),
{
}

/// Building is deterministic: equal builders yield equal configurations.
pub proof fn lemma_build_deterministic(
    b1: ConversionConfigBuilderView,
    b2: ConversionConfigBuilderView,
)
    requires
        b1 == b2,
    ensures
        ConversionConfigBuilder::spec_build(b1) == ConversionConfigBuilder::spec_build(b2),
{
}

} // verus!
