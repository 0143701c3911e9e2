use image_pipeline::common::error::ConversionError;
use image_pipeline::conversions::raw_to_tiff::RawToTiffPipeline;
use image_pipeline::debayer::types::RgbImageData;
use image_pipeline::debayer::Debayer;
use image_pipeline::raw::reader::RawImageReader;
use image_pipeline::raw::types::RawImageData;
use image_pipeline::tiff::standard_tiff_writer::StandardTiffWriter;
use image_pipeline::tiff::types::ConversionConfig;

struct MockReader {
    should_fail: bool,
    mock_data: Option<RawImageData>,
}

fn default_frame(width: usize, height: usize) -> RawImageData {
    RawImageData {
        width,
        height,
        data: vec![0u16; width * height],
        bits_per_sample: 16,
        wb_coeffs: [1.0f32.to_bits(); 4],
        blacklevels: [0; 4],
        whitelevels: [65535; 4],
        cam_to_xyz: [[1.0f32.to_bits(); 4]; 3],
        xyz_to_cam: [[1.0f32.to_bits(); 3]; 4],
    }
}

impl RawImageReader for MockReader {
    fn read_raw(&self, _data: &[u8]) -> Result<RawImageData, ConversionError> {
        if self.should_fail {
            return Err(ConversionError::DecodeError("Mock decode error".to_string()));
        }
        Ok(self.mock_data.clone().unwrap_or(default_frame(4, 4)))
    }
}

/// A backend that multiplies every sample by two, so its effect is visible
/// in the encoded bytes.
struct DoublingDebayer;

impl Debayer for DoublingDebayer {
    fn process(&self, raw_image: &RawImageData) -> Result<RgbImageData, String> {
        let mut data = Vec::new();
        for &v in &raw_image.data {
            data.push(v * 2);
            data.push(v * 2);
            data.push(v * 2);
        }
        Ok(RgbImageData {
            width: raw_image.width,
            height: raw_image.height,
            data,
            bits_per_sample: 16,
        })
    }
}

struct FailingDebayer;

impl Debayer for FailingDebayer {
    fn process(&self, _raw_image: &RawImageData) -> Result<RgbImageData, String> {
        Err("device unavailable".to_string())
    }
}

#[test]
fn raw_pipeline_grayscale_path() {
    let reader = MockReader { should_fail: false, mock_data: Some(default_frame(4, 2)) };
    let pipeline: RawToTiffPipeline<_, _, DoublingDebayer> =
        RawToTiffPipeline::with_custom(reader, StandardTiffWriter, None, ConversionConfig::default())
            .unwrap();
    let bytes = pipeline.convert(b"ignored").unwrap();
    assert_eq!(&bytes[0..2], b"II");
}

#[test]
fn raw_pipeline_debayer_path() {
    let mut frame = default_frame(2, 2);
    frame.data = vec![1, 2, 3, 4];
    let reader = MockReader { should_fail: false, mock_data: Some(frame) };
    let config = ConversionConfig::builder().debayer(true).build();
    let pipeline = RawToTiffPipeline::with_custom(
        reader,
        StandardTiffWriter,
        Some(DoublingDebayer),
        config,
    )
    .unwrap();
    let bytes = pipeline.convert(b"ignored").unwrap();
    let mut decoder = tiff::decoder::Decoder::new(std::io::Cursor::new(&bytes[..])).unwrap();
    match decoder.read_image().unwrap() {
        tiff::decoder::DecodingResult::U16(v) => {
            assert_eq!(v, vec![2, 2, 2, 4, 4, 4, 6, 6, 6, 8, 8, 8]);
        }
        _ => panic!("expected 16-bit samples"),
    }
}

#[test]
fn raw_pipeline_debayer_failure_is_cuda_error() {
    let reader = MockReader { should_fail: false, mock_data: None };
    let pipeline = RawToTiffPipeline::with_custom(
        reader,
        StandardTiffWriter,
        Some(FailingDebayer),
        ConversionConfig::default(),
    )
    .unwrap();
    let result = pipeline.convert(b"ignored");
    assert!(matches!(result.unwrap_err(), ConversionError::CudaError(_)));
}

#[test]
fn raw_pipeline_reader_failure() {
    let reader = MockReader { should_fail: true, mock_data: None };
    let pipeline: RawToTiffPipeline<_, _, DoublingDebayer> =
        RawToTiffPipeline::with_custom(reader, StandardTiffWriter, None, ConversionConfig::default())
            .unwrap();
    let result = pipeline.convert(b"ignored");
    assert!(matches!(result.unwrap_err(), ConversionError::DecodeError(_)));
}

#[test]
fn raw_pipeline_rejects_zero_dimensions() {
    let reader = MockReader { should_fail: false, mock_data: Some(default_frame(0, 100)) };
    let pipeline: RawToTiffPipeline<_, _, DoublingDebayer> =
        RawToTiffPipeline::with_custom(reader, StandardTiffWriter, None, ConversionConfig::default())
            .unwrap();
    let result = pipeline.convert(b"ignored");
    assert!(matches!(result.unwrap_err(), ConversionError::InvalidDimensions(0, 100)));
}

#[test]
fn raw_pipeline_validate_dimensions() {
    let reader = MockReader { should_fail: false, mock_data: None };
    let pipeline: RawToTiffPipeline<_, _, DoublingDebayer> =
        RawToTiffPipeline::with_custom(reader, StandardTiffWriter, None, ConversionConfig::default())
            .unwrap();
    assert!(matches!(
        pipeline.validate_dimensions(0, 100),
        Err(ConversionError::InvalidDimensions(0, 100))
    ));
    assert!(matches!(
        pipeline.validate_dimensions(100, 0),
        Err(ConversionError::InvalidDimensions(100, 0))
    ));
    assert!(pipeline.validate_dimensions(100, 100).is_ok());
}

#[test]
fn raw_pipeline_config_access() {
    let reader = MockReader { should_fail: false, mock_data: None };
    let config = ConversionConfig::builder().debayer(true).build();
    let mut pipeline: RawToTiffPipeline<_, _, DoublingDebayer> =
        RawToTiffPipeline::with_custom(reader, StandardTiffWriter, None, config).unwrap();
    assert!(pipeline.config().debayer);
    let other = ConversionConfig::builder().debayer(false).build();
    pipeline.set_config(other);
    assert!(!pipeline.config().debayer);
}
