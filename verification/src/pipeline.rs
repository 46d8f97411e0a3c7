//! From two decoded images to the output buffer.

use crate::buffer::{FloatingImage, FloatingImageView};
use crate::errors::ImageDataErrors;
use crate::interleave::{combine_images, interleaved};
use crate::raster::{Image, ImageView};
use crate::reconcile::{reconcilable, reconciled, smallest_dimensions, standardize_size};
use image::ImageFormat;
use vstd::prelude::*;

verus! {

/// The image crate's tag for a container format, such as PNG or JPEG.
#[verifier::external_type_specification]
#[verifier::external_body]
pub struct ExImageFormat(ImageFormat);

/// Compares two format tags with the `==` that `image::ImageFormat` derives.
///
/// Trusted: the tag is an enum without fields, so the derived comparison is
/// true exactly when both are the same tag.
#[verifier::external_body]
fn same_format(format_1: &ImageFormat, format_2: &ImageFormat) -> (same: bool)
    ensures
        same == (*format_1 == *format_2),
{
    format_1 == format_2
}

/// The output for two images and a destination name: as large as the image
/// with fewer pixels (the second on a tie), holding the interleaved pixels of
/// the two after reconciling them to that size.
pub open spec fn composite(image_1: ImageView, image_2: ImageView, name: Seq<char>)
    -> FloatingImageView {
    let target = smallest_dimensions(image_1.dimensions(), image_2.dimensions());
    FloatingImageView {
        width: target.0,
        height: target.1,
        data: interleaved(reconciled(image_1, target).data, reconciled(image_2, target).data),
        name,
    }
}

/// Combines two decoded images, each with the container format it was
/// detected to have, into the output buffer named `output`.
///
/// Images of different formats are refused with `DifferentImageFormats`
/// before anything else is done. Otherwise the images are brought to one
/// size, their pixels interleaved, and the bytes assigned to a buffer made
/// for that size, which always has room for them.
pub fn compose(
    image_1: Image,
    format_1: ImageFormat,
    image_2: Image,
    format_2: ImageFormat,
    output: String,
) -> (result: Result<FloatingImage, ImageDataErrors>)
    requires
        format_1 == format_2 ==> reconcilable(image_1@, image_2@),
    ensures
        result is Ok <==> format_1 == format_2,
        result is Ok ==> result->Ok_0@ == composite(image_1@, image_2@, output@),
        result is Ok ==> result->Ok_0@.data.len() == result->Ok_0@.capacity(),
        result is Err ==> result->Err_0 is DifferentImageFormats,
{
    if !same_format(&format_1, &format_2) {
        return Err(ImageDataErrors::DifferentImageFormats);
    }
    let (image_1, image_2): (Image, Image) = standardize_size(image_1, image_2);
    let mut output: FloatingImage = FloatingImage::new(image_1.width(), image_1.height(), output);
    let combined_data: Vec<u8> = combine_images(image_1, image_2);
    match output.set_data(combined_data) {
        Ok(()) => Ok(output),
        Err(e) => Err(e),
    }
}

} // verus!
