use image_pipeline::common::error::ConversionError;
use image_pipeline::raw::types::bits_for_white_levels;
use image_pipeline::debayer::cpu_debayer::CpuDebayer;
use image_pipeline::raw::types::RawImageData;

fn frame(width: usize, height: usize, data: Vec<u16>, bits_per_sample: u32) -> RawImageData {
    RawImageData {
        width,
        height,
        data,
        bits_per_sample,
        wb_coeffs: [1.0f32.to_bits(), 1.0f32.to_bits(), 1.0f32.to_bits(), 0.0f32.to_bits()],
        blacklevels: [0, 0, 0, 0],
        whitelevels: [65535, 65535, 65535, 65535],
        cam_to_xyz: [
            [1.0f32.to_bits(), 0.0f32.to_bits(), 0.0f32.to_bits(), 0.0f32.to_bits()],
            [0.0f32.to_bits(), 1.0f32.to_bits(), 0.0f32.to_bits(), 0.0f32.to_bits()],
            [0.0f32.to_bits(), 0.0f32.to_bits(), 1.0f32.to_bits(), 0.0f32.to_bits()],
        ],
        xyz_to_cam: [
            [1.0f32.to_bits(), 0.0f32.to_bits(), 0.0f32.to_bits()],
            [0.0f32.to_bits(), 1.0f32.to_bits(), 0.0f32.to_bits()],
            [0.0f32.to_bits(), 0.0f32.to_bits(), 1.0f32.to_bits()],
            [0.0f32.to_bits(), 0.0f32.to_bits(), 0.0f32.to_bits()],
        ],
    }
}

/// A 4x4 RGGB mosaic whose red sites all read 1000, green sites 2000 and
/// blue sites 3000 must demosaic to the constant triplet (1000, 2000, 3000):
/// every linear interpolation averages equal values.
#[test]
fn demosaic_constant_channels() {
    let data = vec![
        1000, 2000, 1000, 2000, //
        2000, 3000, 2000, 3000, //
        1000, 2000, 1000, 2000, //
        2000, 3000, 2000, 3000,
    ];
    let raw = frame(4, 4, data, 16);
    let rgb = CpuDebayer::new().unwrap().demosaic(&raw).unwrap();
    assert_eq!(rgb.width, 4);
    assert_eq!(rgb.height, 4);
    assert_eq!(rgb.bits_per_sample, 16);
    assert_eq!(rgb.data.len(), 48);
    for px in rgb.data.chunks(3) {
        assert_eq!(px, &[1000, 2000, 3000]);
    }
}

/// An all-zero mosaic demosaics to an all-zero RGB image: zero stays zero
/// through the interpolation stage.
#[test]
fn demosaic_zero_stays_zero() {
    let raw = frame(4, 4, vec![0u16; 16], 16);
    let rgb = CpuDebayer::new().unwrap().demosaic(&raw).unwrap();
    assert_eq!(rgb.data, vec![0u16; 48]);
}

/// Hand-computed interpolations of a non-uniform 4x4 RGGB mosaic, at the
/// corner and across the interior.
#[test]
fn demosaic_golden_values() {
    let data = vec![
        100, 200, 300, 400, //
        500, 600, 700, 800, //
        900, 1000, 1100, 1200, //
        1300, 1400, 1500, 1600,
    ];
    let raw = frame(4, 4, data, 16);
    let rgb = CpuDebayer::new().unwrap().demosaic(&raw).unwrap();
    let px = |x: usize, y: usize| -> [u16; 3] {
        let i = (y * 4 + x) * 3;
        [rgb.data[i], rgb.data[i + 1], rgb.data[i + 2]]
    };
    // Corner (0, 0) is a red site; its neighbours mirror across the border.
    assert_eq!(px(0, 0), [100, 350, 600]);
    // Interior sites: each missing channel is the average of its neighbours.
    assert_eq!(px(1, 1), [600, 600, 600]);
    assert_eq!(px(2, 1), [700, 700, 700]);
    assert_eq!(px(1, 2), [1000, 1000, 1000]);
    assert_eq!(px(2, 2), [1100, 1100, 1100]);
}

/// Frames at 8 bits per sample run through the 8-bit path: each sample's
/// low byte is interpolated.
#[test]
fn demosaic_8bit_path() {
    let data = vec![
        10, 20, 10, 20, //
        20, 30, 20, 30, //
        10, 20, 10, 20, //
        20, 30, 20, 30,
    ];
    let raw = frame(4, 4, data, 8);
    let rgb = CpuDebayer::new().unwrap().demosaic(&raw).unwrap();
    assert_eq!(rgb.bits_per_sample, 8);
    for px in rgb.data.chunks(3) {
        assert_eq!(px, &[10, 20, 30]);
    }
}

/// A frame smaller than 2x2 cannot be interpolated.
#[test]
fn demosaic_rejects_tiny_frame() {
    let raw = frame(1, 1, vec![42], 16);
    let result = CpuDebayer::new().unwrap().demosaic(&raw);
    assert!(matches!(result, Err(ConversionError::UnsupportedFormat(_))));
}

/// A frame whose buffer does not cover its dimensions is rejected.
#[test]
fn demosaic_rejects_short_buffer() {
    let raw = frame(4, 4, vec![0u16; 7], 16);
    let result = CpuDebayer::new().unwrap().demosaic(&raw);
    assert!(matches!(result, Err(ConversionError::UnsupportedFormat(_))));
}

/// A zero dimension is rejected rather than interpolated.
#[test]
fn demosaic_rejects_zero_dimension() {
    let raw = frame(0, 4, vec![], 16);
    let result = CpuDebayer::new().unwrap().demosaic(&raw);
    assert!(matches!(result, Err(ConversionError::UnsupportedFormat(_))));
}

/// The effective bit depth implied by white-level metadata: the minimum
/// bits for the largest level, 16 when every level is zero.
#[test]
fn bits_per_sample_from_white_levels() {
    assert_eq!(bits_for_white_levels(&[4095, 4095, 4095, 4095]), 12);
    assert_eq!(bits_for_white_levels(&[16383, 16383, 16383, 16383]), 14);
    assert_eq!(bits_for_white_levels(&[65535, 65535, 65535, 65535]), 16);
    assert_eq!(bits_for_white_levels(&[0, 0, 0, 0]), 16);
    assert_eq!(bits_for_white_levels(&[1, 0, 0, 0]), 1);
    // The largest level decides, wherever it stands.
    assert_eq!(bits_for_white_levels(&[255, 4095, 100, 7]), 12);
}
