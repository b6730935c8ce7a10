//! Raw captured frames and the RGBA-to-RGB packing step.
use vstd::prelude::*;

verus! {

/// Frames taller than this are downscaled before encoding.
pub const MAX_FRAME_HEIGHT: u32 = 1080;

/// An uncompressed RGBA8 frame: `pixels` holds `width * height` pixels of
/// four bytes each (R, G, B, A), row-major.
pub struct RawFrame {
    pub width: u32,
    pub height: u32,
    pub pixels: Vec<u8>,
}

impl RawFrame {
    /// The buffer holds exactly four bytes per pixel.
    pub open spec fn wf(self) -> bool {
        self.pixels@.len() == self.width * self.height * 4
    }

    /// Builds a frame after checking the buffer length against the
    /// dimensions; rejects a buffer that does not hold exactly
    /// `width * height * 4` bytes.
    pub fn new(width: u32, height: u32, pixels: Vec<u8>) -> (r: Option<RawFrame>)
        ensures
            r matches Some(f) ==> f.wf() && f.width == width && f.height == height && f.pixels@
                == pixels@,
            r is None ==> pixels@.len() != width * height * 4,
    {
        proof {
            assert((width as int) * (height as int) * 4 < u128::MAX) by (nonlinear_arith)
                requires
                    width <= u32::MAX,
                    height <= u32::MAX,
            ;
        }
        let expected = (width as u128) * (height as u128) * 4;
        if pixels.len() as u128 == expected {
            Some(RawFrame { width, height, pixels })
        } else {
            None
        }
    }
}

/// The RGB packing of an RGBA byte sequence: three bytes per pixel, the
/// alpha byte of each pixel dropped, row-major order kept.
pub open spec fn rgb_of(s: Seq<u8>) -> Seq<u8> {
    Seq::new((s.len() / 4) * 3, |j: int| s[4 * (j / 3) + (j % 3)])
}

/// Each output pixel of the RGB packing keeps the first three bytes of the
/// corresponding input pixel: for pixel `p`, the output bytes at
/// `3p .. 3p + 3` equal the input bytes at `4p .. 4p + 3`.
pub proof fn lemma_rgb_of_pixel(s: Seq<u8>, p: int)
    requires
        0 <= p < s.len() / 4,
    ensures
        rgb_of(s)[3 * p] == s[4 * p],
        rgb_of(s)[3 * p + 1] == s[4 * p + 1],
        rgb_of(s)[3 * p + 2] == s[4 * p + 2],
{
    assert((3 * p) / 3 == p && (3 * p) % 3 == 0);
    assert((3 * p + 1) / 3 == p && (3 * p + 1) % 3 == 1);
    assert((3 * p + 2) / 3 == p && (3 * p + 2) % 3 == 2);
}

/// Packs an RGBA8 buffer into an RGB8 buffer: walks the buffer in strides
/// of four bytes, emits R, G and B and drops the alpha byte of each pixel.
pub fn to_rgb(frame: &RawFrame) -> (r: Vec<u8>)
    requires
        frame.wf(),
    ensures
        r@.len() == 3 * frame.width * frame.height,
        r@ == rgb_of(frame.pixels@),
{
    let len = frame.pixels.len();
    let n = len / 4;
    proof {
        assert(len == frame.width * frame.height * 4);
        assert(n == frame.width * frame.height && 4 * n == len) by (nonlinear_arith)
            requires
                len == frame.width * frame.height * 4,
                n == len / 4,
        ;
    }
    let mut out: Vec<u8> = Vec::new();
    let mut i: usize = 0;
    while i < n
        invariant
            i <= n,
            n == frame.width * frame.height,
            4 * n == frame.pixels@.len(),
            frame.pixels@.len() <= usize::MAX,
            out@.len() == 3 * i,
            forall|j: int|
                0 <= j < out@.len() ==> #[trigger] out@[j] == frame.pixels@[4 * (j / 3) + (j % 3)],
        decreases n - i,
    {
        out.push(frame.pixels[4 * i]);
        out.push(frame.pixels[4 * i + 1]);
        out.push(frame.pixels[4 * i + 2]);
        proof {
            assert((3 * i) / 3 == i as int && (3 * i) % 3 == 0);
            assert((3 * i + 1) / 3 == i as int && (3 * i + 1) % 3 == 1);
            assert((3 * i + 2) / 3 == i as int && (3 * i + 2) % 3 == 2);
        }
        i = i + 1;
    }
    proof {
        let s = frame.pixels@;
        assert(rgb_of(s).len() == 3 * n);
        assert(out@ =~= rgb_of(s));
        assert(3 * (frame.width * frame.height) == 3 * frame.width * frame.height)
            by (nonlinear_arith);
    }
    out
}

} // verus!
