//! Errors of tag detection.

use kornia_image::ImageError;
use vstd::prelude::*;

verus! {

/// The error type of `kornia_image`, carried unread.
#[verifier::external_type_specification]
#[verifier::external_body]
pub struct ExImageError(ImageError);

/// What can go wrong while a decoder is made or run; `E` is the error of the detection stages.
#[derive(Debug)]
pub enum AprilTagError<E> {
    /// An image could not be made or resized.
    ImageError(ImageError),
    /// A detection stage failed.
    Stage(E),
}

} // verus!
