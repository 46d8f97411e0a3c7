//! A decoded image held as plain values: its size and its RGBA bytes.

use image::imageops::{resize, FilterType};
use image::{ImageBuffer, Rgba};
use vstd::prelude::*;

verus! {

/// The RGBA bytes that the image crate's `imageops::resize` gives, with its
/// triangle filter, for the image of size `width` by `height` held in `data`
/// when asked for the size `nwidth` by `nheight`.
pub uninterp spec fn triangle_resampled(
    data: Seq<u8>,
    width: u32,
    height: u32,
    nwidth: u32,
    nheight: u32,
) -> Seq<u8>;

/// The longest side, in pixels, that resampling takes on either end. The
/// image crate places every output pixel over the source in single
/// precision. With sides up to this length the placement is exact enough
/// that a source pixel always lies under the filter; on much longer sides
/// none may, and the crate panics.
pub const MAX_DIMENSION: u32 = 0x20_0000;

/// Resampling from `width` by `height` to `nwidth` by `nheight` pixels is
/// within reach: no side is longer than `MAX_DIMENSION`, and the buffers
/// that are allocated can be had, the intermediate one of `width` by
/// `nheight` pixels of four 32-bit channels and the result of `nwidth` by
/// `nheight` pixels of four bytes.
pub open spec fn resamplable(width: u32, height: u32, nwidth: u32, nheight: u32) -> bool {
    &&& width <= MAX_DIMENSION
    &&& height <= MAX_DIMENSION
    &&& nwidth <= MAX_DIMENSION
    &&& nheight <= MAX_DIMENSION
    &&& width as int * nheight as int * 16 <= isize::MAX
    &&& nwidth as int * nheight as int * 4 <= isize::MAX
}

/// Tells whether resampling from `width` by `height` to `nwidth` by `nheight`
/// pixels is within reach.
pub fn can_resample(width: u32, height: u32, nwidth: u32, nheight: u32) -> (ok: bool)
    ensures
        ok == resamplable(width, height, nwidth, nheight),
{
    proof {
        assert(0 <= width as int * nheight as int * 16 <= 0xffff_ffff * 0xffff_ffff * 16)
            by (nonlinear_arith)
            requires
                0 <= width as int <= 0xffff_ffff,
                0 <= nheight as int <= 0xffff_ffff,
        ;
        assert(0 <= nwidth as int * nheight as int * 4 <= 0xffff_ffff * 0xffff_ffff * 4)
            by (nonlinear_arith)
            requires
                0 <= nwidth as int <= 0xffff_ffff,
                0 <= nheight as int <= 0xffff_ffff,
        ;
    }
    let limit: u128 = isize::MAX as u128;
    let between: u128 = (width as u128) * (nheight as u128) * 16;
    let result: u128 = (nwidth as u128) * (nheight as u128) * 4;
    width <= MAX_DIMENSION && height <= MAX_DIMENSION && nwidth <= MAX_DIMENSION && nheight
        <= MAX_DIMENSION && between <= limit && result <= limit
}

/// Calls `image::imageops::resize` with `FilterType::Triangle` on the RGBA
/// image of `width` by `height` pixels in `data`, which it views in place
/// through `ImageBuffer::from_raw`, and returns the raw bytes of the image
/// that comes back.
///
/// Trusted: the result is the function of the five arguments named
/// `triangle_resampled`, and holds four bytes for each of the
/// `nwidth * nheight` pixels (`resize` builds it with `ImageBuffer::new`).
/// The conditions keep clear of the panics in the crate: `from_raw` gives
/// `None` for too short a buffer, `ImageBuffer::new` panics on a buffer that
/// no vector can hold, the samplers index a source row or column that a
/// source without pixels does not have, and on sides of many millions of
/// pixels they may find no source pixel under the filter, divide by a zero
/// sum of weights and fail to convert the result.
#[verifier::external_body]
fn triangle_resample(
    data: &Vec<u8>,
    width: u32,
    height: u32,
    nwidth: u32,
    nheight: u32,
) -> (out: Vec<u8>)
    requires
        width > 0,
        height > 0,
        data@.len() == width as int * height as int * 4,
        resamplable(width, height, nwidth, nheight),
    ensures
        out@ == triangle_resampled(data@, width, height, nwidth, nheight),
        out@.len() == nwidth as int * nheight as int * 4,
{
    let source: ImageBuffer<Rgba<u8>, &[u8]> =
        ImageBuffer::from_raw(width, height, data.as_slice()).unwrap();
    resize(&source, nwidth, nheight, FilterType::Triangle).into_raw()
}

/// What an [`Image`] holds, as mathematical values.
pub struct ImageView {
    pub width: u32,
    pub height: u32,
    pub data: Seq<u8>,
}

impl ImageView {
    /// Width and height as a pair.
    pub open spec fn dimensions(self) -> (u32, u32) {
        (self.width, self.height)
    }

    /// This image resampled to `nwidth` by `nheight` pixels.
    pub open spec fn resized(self, nwidth: u32, nheight: u32) -> ImageView {
        ImageView {
            width: nwidth,
            height: nheight,
            data: triangle_resampled(self.data, self.width, self.height, nwidth, nheight),
        }
    }

    /// Both dimensions are positive and there are exactly four bytes for
    /// every pixel, no more of them than a vector holds.
    pub open spec fn well_formed(self) -> bool {
        &&& self.width > 0
        &&& self.height > 0
        &&& self.data.len() == self.width as int * self.height as int * 4
        &&& self.data.len() <= usize::MAX
    }
}

/// A raster image of positive width and height with four 8-bit channels per
/// pixel (red, green, blue, alpha), rows from top to bottom.
pub struct Image {
    width: u32,
    height: u32,
    data: Vec<u8>,
}

impl View for Image {
    type V = ImageView;

    closed spec fn view(&self) -> ImageView {
        ImageView { width: self.width, height: self.height, data: self.data@ }
    }
}

impl Image {
    #[verifier::type_invariant]
    spec fn inv(&self) -> bool {
        self@.well_formed()
    }

    /// Makes an image from its size and bytes. Gives `None` when a dimension
    /// is zero or when `data` is not exactly `width * height * 4` bytes long.
    pub fn new(width: u32, height: u32, data: Vec<u8>) -> (made: Option<Image>)
        ensures
            made is Some <==> (ImageView { width, height, data: data@ }).well_formed(),
            made matches Some(image) ==> image@ == (ImageView { width, height, data: data@ }),
    {
        if width == 0 || height == 0 {
            return None;
        }
        proof {
            assert(0 <= width as int * height as int * 4 <= 0xffff_ffff * 0xffff_ffff * 4)
                by (nonlinear_arith)
                requires
                    0 <= width as int <= 0xffff_ffff,
                    0 <= height as int <= 0xffff_ffff,
            ;
        }
        let expected: u128 = (width as u128) * (height as u128) * 4;
        if data.len() as u128 != expected {
            return None;
        }
        Some(Image { width, height, data })
    }

    /// The width in pixels.
    pub fn width(&self) -> (w: u32)
        ensures
            w == self@.width,
            self@.well_formed(),
    {
        proof {
            use_type_invariant(self);
        }
        self.width
    }

    /// The height in pixels.
    pub fn height(&self) -> (h: u32)
        ensures
            h == self@.height,
            self@.well_formed(),
    {
        proof {
            use_type_invariant(self);
        }
        self.height
    }

    /// Width and height as a pair.
    pub fn dimensions(&self) -> (dim: (u32, u32))
        ensures
            dim == self@.dimensions(),
            self@.well_formed(),
    {
        proof {
            use_type_invariant(self);
        }
        (self.width, self.height)
    }

    /// The RGBA bytes, four per pixel.
    pub fn data(&self) -> (bytes: &Vec<u8>)
        ensures
            bytes@ == self@.data,
            self@.well_formed(),
    {
        proof {
            use_type_invariant(self);
        }
        &self.data
    }

    /// The image scaled to exactly `nwidth` by `nheight` pixels, without
    /// regard to its aspect ratio, by the image crate's triangle filter.
    pub fn resize_exact(&self, nwidth: u32, nheight: u32) -> (scaled: Image)
        requires
            nwidth > 0,
            nheight > 0,
            resamplable(self@.width, self@.height, nwidth, nheight),
        ensures
            scaled@ == self@.resized(nwidth, nheight),
            scaled@.well_formed(),
    {
        proof {
            use_type_invariant(self);
        }
        let data: Vec<u8> = triangle_resample(&self.data, self.width, self.height, nwidth, nheight);
        Image { width: nwidth, height: nheight, data }
    }

    /// Gives up the image for its RGBA bytes.
    pub fn into_vec(self) -> (bytes: Vec<u8>)
        ensures
            bytes@ == self@.data,
            self@.well_formed(),
    {
        proof {
            use_type_invariant(&self);
        }
        self.data
    }
}

} // verus!
