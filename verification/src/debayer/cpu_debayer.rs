use vstd::prelude::*;

use crate::common::error::ConversionError;
use crate::debayer::types::RgbImageData;
use crate::raw::types::RawImageData;

verus! {

/// The byte stream handed to the demosaicing routine: the low byte of each
/// sample at 8-bit depth, little-endian byte pairs at 16-bit depth.
pub open spec fn bayer_bytes_of(data: Seq<u16>, deep: bool) -> Seq<u8> {
    if deep {
        Seq::new(
            2 * data.len(),
            |i: int|
                if i % 2 == 0 {
                    data[i / 2] as u8
                } else {
                    (data[i / 2] >> 8) as u8
                },
        )
    } else {
        Seq::new(data.len(), |i: int| data[i] as u8)
    }
}

/// The 16-bit samples read back from a demosaiced byte buffer: each byte at
/// 8-bit depth, little-endian byte pairs at 16-bit depth.
pub open spec fn samples_of_bytes(bytes: Seq<u8>, deep: bool) -> Seq<u16> {
    if deep {
        Seq::new(bytes.len() / 2, |i: int| (bytes[2 * i] + bytes[2 * i + 1] * 256) as u16)
    } else {
        Seq::new(bytes.len(), |i: int| bytes[i] as u16)
    }
}

/// At 16-bit depth the sample serialization is lossless: reading the byte
/// stream back yields the original samples.
pub proof fn lemma_sample_bytes_roundtrip_deep(data: Seq<u16>)
    ensures
        samples_of_bytes(bayer_bytes_of(data, true), true) == data,
{
    let bytes = bayer_bytes_of(data, true);
    assert forall|i: int| 0 <= i < data.len() implies samples_of_bytes(bytes, true)[i]
        == data[i] by {
        let v = data[i];
        assert(bytes[2 * i] == v as u8);
        assert(bytes[2 * i + 1] == (v >> 8) as u8);
        assert((v as u8) as u16 + (((v >> 8) as u8) as u16) * 256 == v) by (bit_vector);
    }
    assert(samples_of_bytes(bytes, true) =~= data);
}

/// At 8-bit depth the serialization keeps each sample's low byte, so it is
/// lossless exactly on samples below 256.
pub proof fn lemma_sample_bytes_roundtrip_shallow(data: Seq<u16>)
    requires
        forall|i: int| 0 <= i < data.len() ==> data[i] < 256,
    ensures
        samples_of_bytes(bayer_bytes_of(data, false), false) == data,
{
    let bytes = bayer_bytes_of(data, false);
    assert forall|i: int| 0 <= i < data.len() implies samples_of_bytes(bytes, false)[i]
        == data[i] by {
        let v = data[i];
        assert(v < 256);
        assert((v as u8) as u16 == v) by (bit_vector)
            requires
                v < 256,
        ;
    }
    assert(samples_of_bytes(bytes, false) =~= data);
}

/// Bytes per sample at each depth.
pub open spec fn spec_bpp(deep: bool) -> int {
    if deep {
        2
    } else {
        1
    }
}

/// The bytes the linear RGGB demosaic writes for the given source bytes and
/// dimensions: one interleaved RGB pixel per Bayer cell, at the source depth.
///
/// On the 64-bit little-endian hosts this crate targets, the outcome is a
/// function of these arguments alone; at 16-bit depth the routine writes its
/// output raster in the machine's byte order, so the bytes would differ on a
/// big-endian machine.
pub uninterp spec fn linear_demosaic_rggb(
    src: Seq<u8>,
    width: int,
    height: int,
    deep: bool,
) -> Seq<u8>;

/// Relies on bayer::run_demosaic with the linear algorithm over an RGGB
/// mosaic: it fills `dst` with one interleaved RGB pixel per cell, read from
/// `src` at the given depth, as a deterministic function of the arguments.
/// It succeeds exactly on images at least 2x2 wide and high whose samples
/// are all present in `src`; the destination length never changes. A zero
/// dimension is left out: the raster constructor rejects it.
#[verifier::external_body]
fn run_linear_demosaic(
    src: &Vec<u8>,
    width: usize,
    height: usize,
    deep: bool,
    dst: &mut Vec<u8>,
) -> (r: Result<(), String>)
    requires
        width >= 1,
        height >= 1,
        old(dst)@.len() == width * height * 3 * spec_bpp(deep),
    ensures
        r is Ok <==> (width >= 2 && height >= 2 && src@.len() >= width * height * spec_bpp(deep)),
        r is Ok ==> (final(dst)@ == linear_demosaic_rggb(src@, width as int, height as int, deep)
            && final(dst)@.len() == old(dst)@.len()),
{
    let depth = if deep { bayer::BayerDepth::Depth16LE } else { bayer::BayerDepth::Depth8 };
    let raster_depth = if deep { bayer::RasterDepth::Depth16 } else { bayer::RasterDepth::Depth8 };
    let mut raster = bayer::RasterMut::new(width, height, raster_depth, dst.as_mut_slice());
    let mut cursor = std::io::Cursor::new(&src[..]);
    match bayer::run_demosaic(&mut cursor, depth, bayer::CFA::RGGB, bayer::Demosaic::Linear, &mut raster)
    {
        Ok(()) => Ok(()),
        Err(e) => Err(format!("Demosaic failed: {:?}", e)),
    }
}

/// Serializes samples for the demosaicing routine at the chosen depth.
fn to_bayer_bytes(data: &Vec<u16>, deep: bool) -> (r: Vec<u8>)
    ensures
        r@ == bayer_bytes_of(data@, deep),
{
    let n = data.len();
    let mut out: Vec<u8> = Vec::new();
    if deep {
        let mut i: usize = 0;
        while i < n
            invariant
                n == data@.len(),
                0 <= i <= n,
                out@.len() == 2 * i,
                forall|j: int| 0 <= j < 2 * i ==> out@[j] == bayer_bytes_of(data@, true)[j],
            decreases n - i,
        {
            let v = data[i];
            out.push(#[verifier::truncate] (v as u8));
            out.push((v >> 8) as u8);
            i = i + 1;
        }
        proof {
            assert(out@ =~= bayer_bytes_of(data@, true));
        }
    } else {
        let mut i: usize = 0;
        while i < n
            invariant
                n == data@.len(),
                0 <= i <= n,
                out@.len() == i,
                forall|j: int| 0 <= j < i ==> out@[j] == bayer_bytes_of(data@, false)[j],
            decreases n - i,
        {
            let v = data[i];
            out.push(#[verifier::truncate] (v as u8));
            i = i + 1;
        }
        proof {
            assert(out@ =~= bayer_bytes_of(data@, false));
        }
    }
    out
}

/// Reads the demosaiced byte buffer back into 16-bit samples.
fn to_samples(bytes: &Vec<u8>, deep: bool) -> (r: Vec<u16>)
    ensures
        r@ == samples_of_bytes(bytes@, deep),
{
    let mut out: Vec<u16> = Vec::new();
    if deep {
        let n2 = bytes.len() / 2;
        let mut i: usize = 0;
        while i < n2
            invariant
                n2 == bytes@.len() / 2,
                bytes@.len() <= usize::MAX,
                2 * n2 <= bytes@.len(),
                0 <= i <= n2,
                out@.len() == i,
                forall|j: int| 0 <= j < i ==> out@[j] == samples_of_bytes(bytes@, true)[j],
            decreases n2 - i,
        {
            let lo = bytes[2 * i] as u16;
            let hi = bytes[2 * i + 1] as u16;
            out.push(lo + hi * 256);
            i = i + 1;
        }
        proof {
            assert(out@ =~= samples_of_bytes(bytes@, true));
        }
    } else {
        let n = bytes.len();
        let mut i: usize = 0;
        while i < n
            invariant
                n == bytes@.len(),
                0 <= i <= n,
                out@.len() == i,
                forall|j: int| 0 <= j < i ==> out@[j] == samples_of_bytes(bytes@, false)[j],
            decreases n - i,
        {
            out.push(bytes[i] as u16);
            i = i + 1;
        }
        proof {
            assert(out@ =~= samples_of_bytes(bytes@, false));
        }
    }
    out
}

/// A zero-filled byte buffer of the given length.
fn zero_bytes(n: usize) -> (r: Vec<u8>)
    ensures
        r@.len() == n,
{
    let mut out: Vec<u8> = Vec::new();
    let mut i: usize = 0;
    while i < n
        invariant
            0 <= i <= n,
            out@.len() == i,
        decreases n - i,
    {
        out.push(0);
        i = i + 1;
    }
    out
}

/// The CPU debayer backend: demosaics a Bayer frame by linear interpolation
/// under the fixed RGGB pattern.
pub struct CpuDebayer;

impl CpuDebayer {
    /// Creates the CPU backend; needs no device and always succeeds.
    pub fn new() -> (r: Result<CpuDebayer, ConversionError>)
        ensures
            r is Ok,
    {
        Ok(CpuDebayer)
    }

    /// Demosaics a Bayer frame into one interleaved RGB triplet per cell,
    /// at the frame's own depth: frames up to 8 bits per sample run through
    /// the 8-bit path on each sample's low byte, deeper frames through the
    /// 16-bit path.
    ///
    /// Succeeds exactly on frames at least 2x2 wide and high whose buffer
    /// covers the dimensions and whose output size fits in memory; the
    /// result is the linear RGGB interpolation of the serialized samples.
    pub fn demosaic(&self, raw_image: &RawImageData) -> (r: Result<RgbImageData, ConversionError>)
        ensures
            ({
                let w = raw_image@.width as int;
                let h = raw_image@.height as int;
                let deep = raw_image@.bits_per_sample > 8;
                let bpp: int = spec_bpp(deep);
                &&& (r is Ok <==> w >= 2 && h >= 2 && raw_image@.data.len() >= w * h && w * h * 3
                    * bpp <= usize::MAX)
                &&& (r matches Ok(img) ==> img@.width == raw_image@.width && img@.height
                    == raw_image@.height && img@.bits_per_sample == raw_image@.bits_per_sample
                    && img@.data == samples_of_bytes(
                    linear_demosaic_rggb(bayer_bytes_of(raw_image@.data, deep), w, h, deep),
                    deep,
                ) && img@.data.len() == 3 * w * h)
                &&& (r matches Err(e) ==> e is UnsupportedFormat)
            }),
    {
        let width = raw_image.width;
        let height = raw_image.height;
        let deep = raw_image.bits_per_sample > 8;
        let bpp: usize = if deep { 2 } else { 1 };
        let ghost w = width as int;
        let ghost h = height as int;
        let ghost b = spec_bpp(deep);

        if width == 0 || height == 0 {
            return Err(
                ConversionError::UnsupportedFormat("demosaic requires positive dimensions".to_owned()),
            );
        }
        let wh = match width.checked_mul(height) {
            Some(v) => v,
            None => {
                proof {
                    assert(w * h * 3 * b > usize::MAX) by (nonlinear_arith)
                        requires
                            w * h > usize::MAX,
                            b >= 1,
                    ;
                }
                return Err(
                    ConversionError::UnsupportedFormat("image dimensions overflow".to_owned()),
                );
            },
        };
        let out_len = match wh.checked_mul(3 * bpp) {
            Some(v) => v,
            None => {
                proof {
                    assert(w * h * 3 * b > usize::MAX) by (nonlinear_arith)
                        requires
                            wh == w * h,
                            wh * (3 * b) > usize::MAX,
                    ;
                }
                return Err(
                    ConversionError::UnsupportedFormat("image dimensions overflow".to_owned()),
                );
            },
        };
        proof {
            assert(out_len == w * h * 3 * b) by (nonlinear_arith)
                requires
                    wh == w * h,
                    out_len == wh * (3 * b),
            ;
        }

        let bayer_bytes = to_bayer_bytes(&raw_image.data, deep);
        proof {
            assert(bayer_bytes@.len() == b * raw_image@.data.len());
            assert(out_len == width * height * 3 * spec_bpp(deep)) by (nonlinear_arith)
                requires
                    out_len == w * h * 3 * b,
                    w == width as int,
                    h == height as int,
                    b == spec_bpp(deep),
            ;
        }
        let mut output_buf = zero_bytes(out_len);
        match run_linear_demosaic(&bayer_bytes, width, height, deep, &mut output_buf) {
            Ok(()) => {},
            Err(msg) => {
                proof {
                    assert(!(w >= 2 && h >= 2 && raw_image@.data.len() >= w * h)) by (
                    nonlinear_arith)
                        requires
                            !(w >= 2 && h >= 2 && bayer_bytes@.len() >= w * h * b),
                            bayer_bytes@.len() == b * raw_image@.data.len(),
                            b >= 1,
                    ;
                }
                return Err(ConversionError::UnsupportedFormat(msg));
            },
        }
        proof {
            assert(w >= 2 && h >= 2 && raw_image@.data.len() >= w * h) by (nonlinear_arith)
                requires
                    w >= 2 && h >= 2 && bayer_bytes@.len() >= w * h * b,
                    bayer_bytes@.len() == b * raw_image@.data.len(),
                    b >= 1,
            ;
        }
        let data = to_samples(&output_buf, deep);
        proof {
            assert(data@.len() == 3 * w * h) by (nonlinear_arith)
                requires
                    data@.len() == (if deep { (w * h * 3 * b) / 2int } else { w * h * 3 * b }),
                    b == spec_bpp(deep),
                    w >= 0,
                    h >= 0,
            ;
        }
        Ok(
            RgbImageData {
                width,
                height,
                data,
                bits_per_sample: raw_image.bits_per_sample,
            },
        )
    }
}

} // verus!
