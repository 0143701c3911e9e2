use vstd::prelude::*;

verus! {

/// A decoded RAW frame: one unsigned 16-bit sample per Bayer cell (RGGB
/// pattern), together with the per-capture calibration metadata.
///
/// The white-balance coefficients and the color matrices are single-precision
/// values supplied by the decoder; this crate never does arithmetic on them,
/// so it stores each one as its IEEE-754 bit pattern and carries it through
/// to the debayer backend unchanged.
#[derive(Debug, Clone)]
pub struct RawImageData {
    /// Width of the image in pixels.
    pub width: usize,
    /// Height of the image in pixels.
    pub height: usize,
    /// Raw pixel data (single-channel Bayer pattern), row-major.
    pub data: Vec<u16>,
    /// Effective bits per sample of the sensor (e.g. 12, 14, or 16).
    pub bits_per_sample: u32,
    /// White balance coefficients [R, G, B, E], as IEEE-754 bit patterns.
    pub wb_coeffs: [u32; 4],
    /// Black levels [R, G, B, E]: the sensor floor to subtract.
    pub blacklevels: [u16; 4],
    /// White levels [R, G, B, E]: the sensor ceiling.
    pub whitelevels: [u16; 4],
    /// Camera-to-XYZ conversion matrix (3x4, row-major), as IEEE-754 bit
    /// patterns; the fourth column is the offset.
    pub cam_to_xyz: [[u32; 4]; 3],
    /// XYZ-to-camera conversion matrix (4x3, row-major), as IEEE-754 bit
    /// patterns.
    pub xyz_to_cam: [[u32; 3]; 4],
}

/// The mathematical value of a [`RawImageData`].
pub ghost struct RawImageDataView {
    pub width: usize,
    pub height: usize,
    pub data: Seq<u16>,
    pub bits_per_sample: u32,
    pub wb_coeffs: Seq<u32>,
    pub blacklevels: Seq<u16>,
    pub whitelevels: Seq<u16>,
    pub cam_to_xyz: Seq<Seq<u32>>,
    pub xyz_to_cam: Seq<Seq<u32>>,
}

impl View for RawImageData {
    type V = RawImageDataView;

    open spec fn view(&self) -> RawImageDataView {
        RawImageDataView {
            width: self.width,
            height: self.height,
            data: self.data@,
            bits_per_sample: self.bits_per_sample,
            wb_coeffs: self.wb_coeffs@,
            blacklevels: self.blacklevels@,
            whitelevels: self.whitelevels@,
            cam_to_xyz: self.cam_to_xyz@.map(|i: int, row: [u32; 4]| row@),
            xyz_to_cam: self.xyz_to_cam@.map(|i: int, row: [u32; 3]| row@),
        }
    }
}

/// The largest of the four per-channel white levels.
pub open spec fn spec_max_white_level(levels: Seq<u16>) -> u16
    recommends
        levels.len() == 4,
{
    let m01 = if levels[1] > levels[0] {
        levels[1]
    } else {
        levels[0]
    };
    let m012 = if levels[2] > m01 {
        levels[2]
    } else {
        m01
    };
    if levels[3] > m012 {
        levels[3]
    } else {
        m012
    }
}

/// The effective sensor bit depth implied by the white levels: the minimum
/// bits that represent the largest white level, or 16 when every level is
/// zero.
pub open spec fn spec_bits_per_sample(levels: Seq<u16>) -> u32
    recommends
        levels.len() == 4,
{
    let m = spec_max_white_level(levels);
    if m == 0 {
        16u32
    } else {
        (16 - vstd::std_specs::bits::u16_leading_zeros(m)) as u32
    }
}

/// Derives the effective sensor bit depth from white-level metadata, e.g.
/// a white level of 4095 means 12 bits and 16383 means 14 bits.
pub fn bits_for_white_levels(levels: &[u16; 4]) -> (r: u32)
    ensures
        r == spec_bits_per_sample(levels@),
{
    let mut max: u16 = levels[0];
    if levels[1] > max {
        max = levels[1];
    }
    if levels[2] > max {
        max = levels[2];
    }
    if levels[3] > max {
        max = levels[3];
    }
    if max == 0 {
        16
    } else {
        proof {
            broadcast use vstd::std_specs::bits::axiom_u16_leading_zeros;
        }
        16 - max.leading_zeros()
    }
}

} // verus!
