//! Choosing a common resolution for two images.

use crate::raster::{can_resample, resamplable, Image, ImageView};
use vstd::prelude::*;

verus! {

/// Number of pixels of an image with dimensions `dim` (width, height).
pub open spec fn pixel_count(dim: (u32, u32)) -> int {
    dim.0 as int * dim.1 as int
}

/// The dimension pair with strictly fewer pixels; on a tie, the second one.
pub open spec fn smallest_dimensions(dim_1: (u32, u32), dim_2: (u32, u32)) -> (u32, u32) {
    if pixel_count(dim_1) < pixel_count(dim_2) {
        dim_1
    } else {
        dim_2
    }
}

proof fn lemma_pixel_count_fits(w: u32, h: u32)
    ensures
        0 <= w as int * h as int <= u64::MAX,
{
    assert(0 <= w as int * h as int <= 0xffff_ffff * 0xffff_ffff) by (nonlinear_arith)
        requires
            0 <= w as int <= 0xffff_ffff,
            0 <= h as int <= 0xffff_ffff,
    ;
}

/// Compares two dimension pairs by total pixel count, neither by width nor by
/// height alone, and returns the smaller; equal counts give the second.
pub fn get_smallest_dimensions(dim_1: (u32, u32), dim_2: (u32, u32)) -> (smallest: (u32, u32))
    ensures
        smallest == smallest_dimensions(dim_1, dim_2),
        pixel_count(dim_1) < pixel_count(dim_2) ==> smallest == dim_1,
        pixel_count(dim_1) >= pixel_count(dim_2) ==> smallest == dim_2,
{
    proof {
        lemma_pixel_count_fits(dim_1.0, dim_1.1);
        lemma_pixel_count_fits(dim_2.0, dim_2.1);
    }
    let pix_1: u64 = (dim_1.0 as u64) * (dim_1.1 as u64);
    let pix_2: u64 = (dim_2.0 as u64) * (dim_2.1 as u64);
    if pix_1 < pix_2 {
        dim_1
    } else {
        dim_2
    }
}

/// What reconciling to the dimensions `target` makes of an image: the image
/// itself where it has those dimensions already, else the image resampled.
pub open spec fn reconciled(image: ImageView, target: (u32, u32)) -> ImageView {
    if image.dimensions() == target {
        image
    } else {
        image.resized(target.0, target.1)
    }
}

/// Whichever of the two images would be resampled, the resampling is within
/// reach.
pub open spec fn reconcilable(image_1: ImageView, image_2: ImageView) -> bool {
    let target = smallest_dimensions(image_1.dimensions(), image_2.dimensions());
    &&& image_1.dimensions() != target ==> resamplable(
        image_1.width,
        image_1.height,
        target.0,
        target.1,
    )
    &&& image_2.dimensions() != target ==> resamplable(
        image_2.width,
        image_2.height,
        target.0,
        target.1,
    )
}

/// Tells whether `standardize_size` can take the two images.
pub fn can_standardize(image_1: &Image, image_2: &Image) -> (ok: bool)
    ensures
        ok == reconcilable(image_1@, image_2@),
{
    let dim_1: (u32, u32) = image_1.dimensions();
    let dim_2: (u32, u32) = image_2.dimensions();
    let (width, height): (u32, u32) = get_smallest_dimensions(dim_1, dim_2);
    let fits_1: bool = (dim_1.0 == width && dim_1.1 == height) || can_resample(
        dim_1.0,
        dim_1.1,
        width,
        height,
    );
    let fits_2: bool = (dim_2.0 == width && dim_2.1 == height) || can_resample(
        dim_2.0,
        dim_2.1,
        width,
        height,
    );
    fits_1 && fits_2
}

/// Brings two images to one size: that of the image with fewer pixels, or of
/// the second where the counts are equal. An image that has that size
/// already is handed back as it is; the other is resampled to it. So at
/// most one of the two is resampled, and none where both sizes agree.
pub fn standardize_size(image_1: Image, image_2: Image) -> (standard: (Image, Image))
    requires
        reconcilable(image_1@, image_2@),
    ensures
        standard.0@ == reconciled(
            image_1@,
            smallest_dimensions(image_1@.dimensions(), image_2@.dimensions()),
        ),
        standard.1@ == reconciled(
            image_2@,
            smallest_dimensions(image_1@.dimensions(), image_2@.dimensions()),
        ),
        standard.0@.well_formed(),
        standard.1@.well_formed(),
        standard.0@.dimensions() == smallest_dimensions(
            image_1@.dimensions(),
            image_2@.dimensions(),
        ),
        standard.1@.dimensions() == standard.0@.dimensions(),
        standard.0@ == image_1@ || standard.1@ == image_2@,
        image_1@.dimensions() == image_2@.dimensions() ==> standard.0@ == image_1@ && standard.1@
            == image_2@,
        pixel_count(image_1@.dimensions()) < pixel_count(image_2@.dimensions()) ==> standard.0@
            == image_1@ && standard.1@ == image_2@.resized(image_1@.width, image_1@.height),
        pixel_count(image_1@.dimensions()) > pixel_count(image_2@.dimensions()) ==> standard.1@
            == image_2@ && standard.0@ == image_1@.resized(image_2@.width, image_2@.height),
{
    let dim_1: (u32, u32) = image_1.dimensions();
    let dim_2: (u32, u32) = image_2.dimensions();
    let (width, height): (u32, u32) = get_smallest_dimensions(dim_1, dim_2);
    if dim_1.0 == width && dim_1.1 == height {
        if dim_2.0 == width && dim_2.1 == height {
            (image_1, image_2)
        } else {
            let scaled: Image = image_2.resize_exact(width, height);
            (image_1, scaled)
        }
    } else {
        let scaled: Image = image_1.resize_exact(width, height);
        (scaled, image_2)
    }
}

} // verus!
