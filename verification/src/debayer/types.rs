use vstd::prelude::*;

verus! {

/// An RGB image produced by debayering: interleaved `[R, G, B, R, G, B, ..]`
/// unsigned 16-bit samples, row-major.
#[derive(Debug, Clone)]
pub struct RgbImageData {
    /// Width of the image in pixels.
    pub width: usize,
    /// Height of the image in pixels.
    pub height: usize,
    /// Interleaved RGB pixel data.
    pub data: Vec<u16>,
    /// Bits per sample of the image.
    pub bits_per_sample: u32,
}

/// The mathematical value of an [`RgbImageData`].
pub ghost struct RgbImageDataView {
    pub width: usize,
    pub height: usize,
    pub data: Seq<u16>,
    pub bits_per_sample: u32,
}

impl View for RgbImageData {
    type V = RgbImageDataView;

    open spec fn view(&self) -> RgbImageDataView {
        RgbImageDataView {
            width: self.width,
            height: self.height,
            data: self.data@,
            bits_per_sample: self.bits_per_sample,
        }
    }
}

} // verus!
