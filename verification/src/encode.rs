//! The capture-to-transport pipeline: downscale, pack to RGB, JPEG-encode,
//! base64-encode and frame as a data URI.
use vstd::prelude::*;

verus! {

use vstd::string::StringExecFns;
use crate::errors::ResizeError;
use crate::frame::{MAX_FRAME_HEIGHT, RawFrame, rgb_of, to_rgb};
use crate::jpeg::{JPEG_QUALITY, encode_jpeg, jpeg_encoded};
use crate::resample::{box_resampled, resize_if_needed, scaled_width};

/// An encoded capture, ready for the UI layer: a `data:image/jpeg;base64,`
/// URI and the dimensions of the encoded image.
pub struct ScreenCapture {
    pub data: String,
    pub width: u32,
    pub height: u32,
}

/// The canonical base64 encoding (standard alphabet, padded) of a byte
/// sequence, a function of the bytes alone.
pub uninterp spec fn base64_of(b: Seq<u8>) -> Seq<char>;

/// Relies on base64_simd::STANDARD.encode_to_string: canonical base64 with
/// padding, whose length is four characters for every started group of
/// three bytes. It panics when that encoded length exceeds
/// `usize::MAX / 2`; inputs above a quarter of the address space are left
/// out here, which keeps the encoded length below that bound.
#[verifier::external_body]
fn base64_encode(b: &Vec<u8>) -> (r: String)
    requires
        b@.len() <= usize::MAX / 4,
    ensures
        r@ == base64_of(b@),
        r@.len() == ((b@.len() + 2) / 3) * 4,
{
    base64_simd::STANDARD.encode_to_string(b)
}

/// The height the pipeline encodes a frame at: the frame's own height,
/// capped at `MAX_FRAME_HEIGHT`.
pub open spec fn target_height(f: RawFrame) -> int {
    if f.height <= MAX_FRAME_HEIGHT {
        f.height as int
    } else {
        MAX_FRAME_HEIGHT as int
    }
}

/// The width the pipeline encodes a frame at: unchanged below the height
/// cap, otherwise scaled to preserve the aspect ratio.
pub open spec fn target_width(f: RawFrame) -> int {
    if f.height <= MAX_FRAME_HEIGHT {
        f.width as int
    } else {
        scaled_width(f.width as int, f.height as int, MAX_FRAME_HEIGHT as int)
    }
}

/// The RGBA bytes the pipeline encodes: the frame's own bytes below the
/// height cap, otherwise their box-filtered resampling.
pub open spec fn target_pixels(f: RawFrame) -> Seq<u8> {
    if f.height <= MAX_FRAME_HEIGHT {
        f.pixels@
    } else {
        box_resampled(
            f.pixels@,
            f.width as int,
            f.height as int,
            target_width(f),
            MAX_FRAME_HEIGHT as int,
        )
    }
}

/// The JPEG stream the pipeline produces for a frame: its target pixels,
/// packed to RGB and encoded at the fixed quality and target dimensions.
pub open spec fn encoded_jpeg_stream(f: RawFrame) -> Seq<u8> {
    jpeg_encoded(rgb_of(target_pixels(f)), target_width(f), target_height(f), JPEG_QUALITY as int)
}

/// What a successful encoding of `f` looks like: the dimensions are the
/// pipeline's target dimensions, and the payload is the data URI of the
/// base64-encoded JPEG stream of the packed RGB bytes.
pub open spec fn pipeline_output(f: RawFrame, sc: ScreenCapture) -> bool {
    &&& sc.width == target_width(f)
    &&& sc.height == target_height(f)
    &&& sc.data@ == "data:image/jpeg;base64,"@ + base64_of(encoded_jpeg_stream(f))
}

/// The inputs on which the pipeline owes success: positive dimensions, a
/// target width the JPEG encoder can represent, and a JPEG stream short
/// enough to frame as base64.
pub open spec fn pipeline_accepts(f: RawFrame) -> bool {
    &&& 1 <= f.width
    &&& 1 <= f.height
    &&& 1 <= target_width(f) <= u16::MAX
    &&& encoded_jpeg_stream(f).len() <= usize::MAX / 4
}

/// Runs a captured frame through the whole pipeline: downscale to the
/// height cap, drop alpha, JPEG-encode at the fixed quality, base64-encode
/// and wrap as a data URI. Every stage failure is surfaced as a single
/// descriptive string; no partial result is returned.
pub fn encode_frame(frame: RawFrame) -> (r: Result<ScreenCapture, String>)
    requires
        frame.wf(),
    ensures
        r matches Ok(sc) ==> pipeline_output(frame, sc) && sc.height <= MAX_FRAME_HEIGHT && 1
            <= sc.width && 1 <= sc.height,
        pipeline_accepts(frame) ==> r is Ok,
        r is Err ==> frame.width == 0 || frame.height == 0 || target_width(frame) == 0
            || target_width(frame) > u16::MAX || encoded_jpeg_stream(frame).len() > usize::MAX / 4,
        frame.height > MAX_FRAME_HEIGHT && frame.width == 0 ==> r is Err,
        target_width(frame) > u16::MAX ==> r is Err,
{
    let ghost orig = frame;
    let resized = match resize_if_needed(frame, MAX_FRAME_HEIGHT) {
        Ok(f) => f,
        Err(e) => {
            return Err(e.message());
        },
    };
    if resized.width > u16::MAX as u32 || resized.height > u16::MAX as u32 {
        return Err(String::from_str("image dimensions exceed the encoder's range"));
    }
    let rgb = to_rgb(&resized);
    proof {
        assert(rgb@ == rgb_of(target_pixels(orig)));
        assert(3 * resized.width * resized.height == 3 * (resized.width as u16)
            * (resized.height as u16));
    }
    let jpeg = match encode_jpeg(&rgb, resized.width as u16, resized.height as u16, JPEG_QUALITY) {
        Ok(b) => b,
        Err(e) => {
            return Err(e.message());
        },
    };
    if jpeg.len() > usize::MAX / 4 {
        return Err(String::from_str("encoded image too large to frame"));
    }
    let b64 = base64_encode(&jpeg);
    let data = String::from_str("data:image/jpeg;base64,").concat(b64.as_str());
    Ok(ScreenCapture { data, width: resized.width, height: resized.height })
}

} // verus!
