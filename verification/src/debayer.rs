//! Debayering: converting Bayer-pattern RAW frames to interleaved RGB.

pub mod cpu_debayer;
pub mod types;

pub use cpu_debayer::CpuDebayer;
pub use types::RgbImageData;

use vstd::prelude::*;

use crate::debayer::types::RgbImageDataView;
use crate::raw::types::{RawImageData, RawImageDataView};

verus! {

/// A debayer backend: turns one Bayer-pattern frame into one RGB frame.
///
/// Each backend maps a frame to a fixed outcome, captured by
/// `debayer_result`: a call succeeds exactly where the spec is `Ok`, and
/// then returns that image — its dimensions preserved, one interleaved RGB
/// triplet per input cell, quantized to 16 bits; a failing call reports
/// exactly the spec's message. The spec is per-backend: it does not relate
/// one backend's output to another's. Backends outside this crate are not
/// verified against this contract.
pub trait Debayer {
    /// The outcome this backend produces for the given frame: the RGB
    /// image, or the message of the failure it reports.
    open spec fn debayer_result(&self, raw: RawImageDataView) -> Result<RgbImageDataView, Seq<char>> {
        vstd::pervasive::arbitrary()
    }

    /// Processes one RAW frame into an interleaved RGB frame.
    fn process(&self, raw_image: &RawImageData) -> (r: Result<RgbImageData, String>)
        ensures
            (r matches Ok(img) ==> self.debayer_result(raw_image@) == Ok::<RgbImageDataView, Seq<char>>(
                img@,
            )),
            (r matches Ok(img) ==> img@.width == raw_image@.width && img@.height
                == raw_image@.height && img@.data.len() == 3 * raw_image@.width
                * raw_image@.height && img@.bits_per_sample == 16),
            (self.debayer_result(raw_image@) is Ok ==> r is Ok),
            (r matches Err(msg) ==> self.debayer_result(raw_image@) == Err::<
                RgbImageDataView,
                Seq<char>,
            >(msg@)),
    ;
}

} // verus!
