//! RGBA pictures held as plain bytes, and the picture that is drawn when a
//! source is fitted to a target size.

use vstd::prelude::*;

use crate::fit::{fit, fits_unscaled, fitted_size};

verus! {

/// Bytes per pixel: red, green, blue and alpha, eight bits each.
pub const CHANNEL_COUNT: u32 = 4;

/// A rectangular picture of 8-bit RGBA pixels in row-major order, each row
/// `width * 4` bytes long.
pub struct RgbaPicture {
    pub width: u32,
    pub height: u32,
    pub pixels: Vec<u8>,
}

/// The mathematical content of a picture.
pub struct PictureView {
    pub width: nat,
    pub height: nat,
    pub pixels: Seq<u8>,
}

impl View for RgbaPicture {
    type V = PictureView;

    open spec fn view(&self) -> PictureView {
        PictureView { width: self.width as nat, height: self.height as nat, pixels: self.pixels@ }
    }
}

impl PictureView {
    /// The buffer holds exactly four bytes for each pixel.
    pub open spec fn wf(self) -> bool {
        self.pixels.len() == self.width * self.height * 4
    }

    /// A well-formed picture with at least one pixel on each side.
    pub open spec fn is_source(self) -> bool {
        &&& self.wf()
        &&& self.width > 0
        &&& self.height > 0
    }
}

/// The pixels that triangle-filter resampling of a `width` x `height` RGBA
/// buffer to `new_width` x `new_height` produces.
pub uninterp spec fn triangle_resized(
    pixels: Seq<u8>,
    width: nat,
    height: nat,
    new_width: nat,
    new_height: nat,
) -> Seq<u8>;

/// The picture drawn for `src` inside a `tw` x `th` target: the source itself
/// when it fits strictly inside, otherwise its triangle-filtered resample at
/// the fitted size.
pub open spec fn fitted_picture(src: PictureView, tw: nat, th: nat) -> PictureView {
    let (w, h) = fitted_size(src.width, src.height, tw, th);
    PictureView {
        width: w,
        height: h,
        pixels: if fits_unscaled(src.width, src.height, tw, th) {
            src.pixels
        } else {
            triangle_resized(src.pixels, src.width, src.height, w, h)
        },
    }
}

/// Relies on image::imageops::resize with FilterType::Triangle, on a buffer
/// wrapped by ImageBuffer::from_raw. The result is allocated by
/// ImageBuffer::new(new_width, new_height), so it holds four bytes for each
/// of its pixels, and its bytes depend on the arguments alone. Neither side
/// grows, so no buffer length overflows.
#[verifier::external_body]
fn triangle_resize(pixels: &Vec<u8>, width: u32, height: u32, new_width: u32, new_height: u32) -> (r: Vec<u8>)
    requires
        pixels@.len() == width * height * 4,
        new_width <= width,
        new_height <= height,
    ensures
        r@ == triangle_resized(pixels@, width as nat, height as nat, new_width as nat, new_height as nat),
        r@.len() == new_width * new_height * 4,
{
    let source = image::RgbaImage::from_raw(width, height, pixels.clone()).unwrap();
    image::imageops::resize(&source, new_width, new_height, image::FilterType::Triangle).into_raw()
}

proof fn lemma_fitted_not_larger(sw: nat, sh: nat, tw: nat, th: nat)
    requires
        sw > 0,
        sh > 0,
    ensures
        fitted_size(sw, sh, tw, th).0 <= sw,
        fitted_size(sw, sh, tw, th).1 <= sh,
{
    if !fits_unscaled(sw, sh, tw, th) {
        if tw * sh < th * sw {
            if tw > sw {
                assert(tw * sh >= sw * sh) by (nonlinear_arith)
                    requires tw > sw;
                assert(th * sw <= sh * sw) by (nonlinear_arith)
                    requires th <= sh;
                assert(false);
            }
            assert(tw * sh / sw <= sh) by (nonlinear_arith)
                requires tw <= sw, sw > 0;
        } else {
            if th > sh {
                assert(th * sw > sh * sw) by (nonlinear_arith)
                    requires th > sh, sw > 0;
                assert(tw * sh <= sw * sh) by (nonlinear_arith)
                    requires tw <= sw;
                assert(false);
            }
            assert(th * sw / sh <= sw) by (nonlinear_arith)
                requires th <= sh, sh > 0;
        }
    }
}

/// A source that fits strictly inside the target is drawn as it is: same
/// size, same bytes, never resampled and never enlarged.
pub proof fn lemma_no_upscaling(src: PictureView, tw: nat, th: nat)
    requires
        src.is_source(),
        fits_unscaled(src.width, src.height, tw, th),
    ensures
        fitted_picture(src, tw, th) == src,
        fitted_picture(src, tw, th).pixels.len() == src.pixels.len(),
{
}

impl RgbaPicture {
    /// A picture over `pixels`, when they hold exactly four bytes for each
    /// of `width * height` pixels.
    pub fn new(width: u32, height: u32, pixels: Vec<u8>) -> (r: Option<RgbaPicture>)
        ensures
            r is Some <==> pixels@.len() == width * height * 4,
            r matches Some(p) ==> p.width == width && p.height == height && p.pixels@ == pixels@,
    {
        proof {
            vstd::arithmetic::mul::lemma_mul_upper_bound(width as int, u32::MAX as int, height as int, u32::MAX as int);
        }
        let area: u64 = width as u64 * height as u64;
        let len: usize = pixels.len();
        if len % 4 == 0 && (len / 4) as u64 == area {
            Some(RgbaPicture { width, height, pixels })
        } else {
            None
        }
    }

    /// The picture to draw for this source inside a `tw` x `th` target:
    /// a copy of it when it fits strictly inside, otherwise a
    /// triangle-filtered resample at the fitted size.
    pub fn fitted(&self, tw: u32, th: u32) -> (r: RgbaPicture)
        requires
            self@.is_source(),
        ensures
            r@ == fitted_picture(self@, tw as nat, th as nat),
            r@.wf(),
    {
        let (w, h) = fit(self.width, self.height, tw, th);
        if self.height < th && self.width < tw {
            RgbaPicture { width: w, height: h, pixels: self.pixels.clone() }
        } else {
            proof {
                lemma_fitted_not_larger(self.width as nat, self.height as nat, tw as nat, th as nat);
            }
            let pixels = triangle_resize(&self.pixels, self.width, self.height, w, h);
            RgbaPicture { width: w, height: h, pixels }
        }
    }
}

} // verus!
