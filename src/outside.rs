//! Declarations of the `image` crate's types that the library's contracts speak of.
use image::ColorType;
use image::ImageError;
use image::ImageFormat as ContainerFormat;
use vstd::prelude::*;

verus! {

/// `image::ImageFormat`, the container names that the `image` crate sniffs
/// and writes; its variants carry no data.
#[verifier::external_type_specification]
pub struct ExContainerFormat(ContainerFormat);

/// `image::ColorType`, the pixel layouts of a decoded image; its variants
/// carry no data.
#[verifier::external_type_specification]
pub struct ExColorType(ColorType);

/// `image::ImageError`, the decoder's and encoders' error, carried through
/// unopened.
#[verifier::external_type_specification]
#[verifier::external_body]
pub struct ExImageError(ImageError);

} // verus!
