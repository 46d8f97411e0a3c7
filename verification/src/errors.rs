//! The ways in which a run can fail.

use image::ImageError;
use vstd::prelude::*;

verus! {

/// The image crate's error, carried as an opaque cause.
#[verifier::external_type_specification]
#[verifier::external_body]
pub struct ExImageError(ImageError);

/// The standard library's I/O error, carried as an opaque cause.
#[verifier::external_type_specification]
#[verifier::external_body]
pub struct ExIoError(std::io::Error);

/// Why a run was abandoned. Every kind is final: nothing is retried and no
/// partial result is kept.
#[derive(Debug)]
pub enum ImageDataErrors {
    /// The two inputs were detected to be of different container formats.
    DifferentImageFormats,
    /// More bytes were assigned to an output buffer than it has reserved.
    BufferTooSmall,
    /// The file at the given path could not be opened or read.
    UnableToReadImageFromPath(String, std::io::Error),
    /// No container format could be made out for the given path.
    UnableToFormatImage(String),
    /// The file was read but its pixel data could not be decoded.
    UnableToDecodeImage(ImageError),
    /// The output could not be encoded or written.
    UnableToSaveImage(ImageError),
}

} // verus!
