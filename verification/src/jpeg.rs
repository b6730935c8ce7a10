//! Baseline JPEG encoding of a packed RGB8 buffer at a fixed quality.
use vstd::prelude::*;

verus! {

use crate::errors::EncodeError;
use vstd::string::StringExecFns;

/// The quality factor, on a 0 to 100 scale, at which captured frames are
/// compressed.
pub const JPEG_QUALITY: u8 = 85;

/// The baseline JPEG stream that encodes a packed RGB8 buffer of `w` by `h`
/// pixels at quality `q`. Encoding is deterministic: the stream is a
/// function of these arguments alone.
pub uninterp spec fn jpeg_encoded(rgb: Seq<u8>, w: int, h: int, q: int) -> Seq<u8>;

/// Relies on jpeg_encoder::Encoder::{new, encode}: writes the baseline JPEG
/// stream for an RGB8 buffer into a fresh byte vector, a deterministic
/// function of the buffer, the dimensions and the quality. The encoder
/// fails only on a buffer shorter than required or a zero dimension, both
/// left out here, and writing into a byte vector cannot fail, so the call
/// succeeds; the quality is clamped internally, so any value is accepted.
#[verifier::external_body]
fn jpeg_encode_rgb(rgb: &Vec<u8>, width: u16, height: u16, quality: u8) -> (r: Result<
    Vec<u8>,
    String,
>)
    requires
        rgb@.len() == 3 * width * height,
        1 <= width,
        1 <= height,
    ensures
        r is Ok,
        r matches Ok(b) ==> b@ == jpeg_encoded(rgb@, width as int, height as int, quality as int),
{
    let mut out: Vec<u8> = Vec::new();
    let encoder = jpeg_encoder::Encoder::new(&mut out, quality);
    match encoder.encode(rgb, width, height, jpeg_encoder::ColorType::Rgb) {
        Ok(()) => Ok(out),
        Err(e) => Err(e.to_string()),
    }
}

/// Encodes a packed RGB8 buffer as baseline JPEG. Rejects a buffer whose
/// length is not exactly `width * height * 3` as `DimensionMismatch`, and a
/// zero dimension or an internal encoder failure as `EncoderFailure`.
pub fn encode_jpeg(rgb: &Vec<u8>, width: u16, height: u16, quality: u8) -> (r: Result<
    Vec<u8>,
    EncodeError,
>)
    ensures
        rgb@.len() != 3 * width * height ==> r == Err::<
            Vec<u8>,
            EncodeError,
        >(EncodeError::DimensionMismatch),
        r matches Ok(b) ==> rgb@.len() == 3 * width * height && 1 <= width && 1 <= height && b@
            == jpeg_encoded(rgb@, width as int, height as int, quality as int),
        rgb@.len() == 3 * width * height && (width == 0 || height == 0) ==> (r matches Err(e)
            && e matches EncodeError::EncoderFailure(_)),
        rgb@.len() == 3 * width * height ==> (r matches Err(e) ==> e matches
            EncodeError::EncoderFailure(_)),
        rgb@.len() == 3 * width * height && 1 <= width && 1 <= height ==> r is Ok,
{
    proof {
        assert(3 * (width as int) * (height as int) < u64::MAX) by (nonlinear_arith)
            requires
                width <= u16::MAX,
                height <= u16::MAX,
        ;
    }
    let expected = 3 * (width as u64) * (height as u64);
    if (rgb.len() as u64) != expected {
        return Err(EncodeError::DimensionMismatch);
    }
    if width == 0 || height == 0 {
        return Err(
            EncodeError::EncoderFailure(String::from_str("width or height is zero")),
        );
    }
    match jpeg_encode_rgb(rgb, width, height, quality) {
        Ok(b) => Ok(b),
        Err(m) => Err(EncodeError::EncoderFailure(m)),
    }
}

} // verus!
