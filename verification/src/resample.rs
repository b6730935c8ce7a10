//! Box-filter downscaling of an RGBA8 frame to a target height, preserving
//! the aspect ratio.
use vstd::prelude::*;
use fast_image_resize as fr;

verus! {

use crate::errors::ResizeError;
use crate::frame::RawFrame;

/// The bytes produced by box-filter convolution resampling of an RGBA8
/// buffer of `sw` by `sh` pixels down to `dw` by `dh` pixels, with colors
/// premultiplied by alpha before filtering and divided back out after.
/// The resampling is deterministic: it is a function of these arguments
/// alone.
pub uninterp spec fn box_resampled(src: Seq<u8>, sw: int, sh: int, dw: int, dh: int) -> Seq<u8>;

/// The output width that preserves the aspect ratio at a target height:
/// `round(target * w / h)` with halves rounded up, written over integers as
/// `floor((2 * target * w + h) / (2 * h))`.
pub open spec fn scaled_width(w: int, h: int, target: int) -> int {
    (2 * target * w + h) / (2 * h)
}

/// Aspect ratio is preserved to within one output pixel: the scaled width
/// `sw` satisfies `|sw * h - target * w| < h`, which is
/// `|sw / target - w / h| < 1 / target` over the rationals.
pub proof fn lemma_scaled_width_aspect(w: int, h: int, target: int)
    requires
        1 <= w,
        0 < target < h,
    ensures
        -h < scaled_width(w, h, target) * h - target * w,
        scaled_width(w, h, target) * h - target * w < h,
{
    let d = 2 * h;
    let n = 2 * target * w + h;
    let q = scaled_width(w, h, target);
    vstd::arithmetic::div_mod::lemma_fundamental_div_mod(n, d);
    vstd::arithmetic::div_mod::lemma_mod_bound(n, d);
    assert(-h < q * h - target * w && q * h - target * w < h) by (nonlinear_arith)
        requires
            n == d * q + n % d,
            0 <= n % d < d,
            d == 2 * h,
            n == 2 * target * w + h,
            0 < target < h,
    ;
}

/// The scaled width never exceeds the source width when the frame is
/// being shrunk.
pub proof fn lemma_scaled_width_le(w: int, h: int, target: int)
    requires
        1 <= w,
        0 < target < h,
    ensures
        0 <= scaled_width(w, h, target) <= w,
{
    let d = 2 * h;
    let n = 2 * target * w + h;
    vstd::arithmetic::div_mod::lemma_fundamental_div_mod(n, d);
    vstd::arithmetic::div_mod::lemma_mod_bound(n, d);
    assert(0 <= scaled_width(w, h, target) <= w) by (nonlinear_arith)
        requires
            n == d * (scaled_width(w, h, target)) + n % d,
            0 <= n % d < d,
            d == 2 * h,
            n == 2 * target * w + h,
            0 < target < h,
            1 <= w,
    ;
}

/// Relies on fast_image_resize: `images::ImageRef::new` and `images::Image::new`
/// view the source and destination as `dw * dh * 4`-byte RGBA8 buffers, and
/// `Resizer::resize` with `ResizeAlg::Convolution(FilterType::Box)` and
/// `mul_div_alpha` fills the destination with the box-filtered, alpha-aware
/// resampling of the source, a deterministic function of the buffer and the
/// four dimensions. The destination buffer of `Image::new` holds exactly
/// `dw * dh * 4` bytes. The call succeeds: the source view fails only on a
/// short buffer (excluded here) or misalignment (the four-byte pixel type
/// has byte alignment), resizing fails only on a pixel-type mismatch (both
/// sides are built with the same type), and a zero destination dimension is
/// a silent no-op, not an error.
#[verifier::external_body]
fn resample_box(src: &Vec<u8>, sw: u32, sh: u32, dw: u32, dh: u32) -> (r: Result<Vec<u8>, String>)
    requires
        src@.len() == sw * sh * 4,
        dw <= sw,
        dh <= sh,
    ensures
        r is Ok,
        r matches Ok(b) ==> b@ == box_resampled(
            src@,
            sw as int,
            sh as int,
            dw as int,
            dh as int,
        ) && b@.len() == dw * dh * 4,
{
    let src_image = match fr::images::ImageRef::new(sw, sh, src, fr::pixels::PixelType::U8x4) {
        Ok(v) => v,
        Err(e) => return Err(e.to_string()),
    };
    let mut dst_image = fr::images::Image::new(dw, dh, fr::pixels::PixelType::U8x4);
    let options = fr::ResizeOptions {
        algorithm: fr::ResizeAlg::Convolution(fr::FilterType::Box),
        cropping: fr::SrcCropping::None,
        mul_div_alpha: true,
    };
    match fr::Resizer::new().resize(&src_image, &mut dst_image, &options) {
        Ok(()) => Ok(dst_image.buffer().to_vec()),
        Err(e) => Err(e.to_string()),
    }
}

/// Downscales a frame to `max_height`, preserving the aspect ratio, and
/// returns a frame at or below that height. A frame already at or below
/// `max_height` is returned unchanged, byte for byte; every other frame
/// with a positive width is resampled and returned. A zero source width
/// on the downscaling path is rejected as `InvalidDimensions`.
pub fn resize_if_needed(frame: RawFrame, max_height: u32) -> (r: Result<RawFrame, ResizeError>)
    requires
        frame.wf(),
        1 <= max_height,
    ensures
        frame.height <= max_height ==> (r matches Ok(f) && f.width == frame.width && f.height
            == frame.height && f.pixels@ == frame.pixels@),
        frame.height > max_height && frame.width == 0 ==> r == Err::<
            RawFrame,
            ResizeError,
        >(ResizeError::InvalidDimensions),
        frame.height > max_height && frame.width >= 1 ==> (r matches Ok(f) && f.height
            == max_height && f.width == scaled_width(
            frame.width as int,
            frame.height as int,
            max_height as int,
        ) && f.pixels@ == box_resampled(
            frame.pixels@,
            frame.width as int,
            frame.height as int,
            f.width as int,
            max_height as int,
        )),
        r matches Ok(f) ==> f.wf() && f.height <= max_height,
{
    if frame.height <= max_height {
        return Ok(frame);
    }
    if frame.width == 0 {
        return Err(ResizeError::InvalidDimensions);
    }
    proof {
        assert(2 * (max_height as int) * (frame.width as int) + (frame.height as int)
            < u128::MAX) by (nonlinear_arith)
            requires
                max_height <= u32::MAX,
                frame.width <= u32::MAX,
                frame.height <= u32::MAX,
        ;
    }
    let num = 2 * (max_height as u128) * (frame.width as u128) + (frame.height as u128);
    let den = 2 * (frame.height as u128);
    let nw128 = num / den;
    proof {
        lemma_scaled_width_le(frame.width as int, frame.height as int, max_height as int);
        assert(nw128 == scaled_width(frame.width as int, frame.height as int, max_height as int));
    }
    let nw = nw128 as u32;
    match resample_box(&frame.pixels, frame.width, frame.height, nw, max_height) {
        Ok(buf) => Ok(RawFrame { width: nw, height: max_height, pixels: buf }),
        Err(m) => Err(ResizeError::AllocationFailed(m)),
    }
}

} // verus!
