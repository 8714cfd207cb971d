//! Decoding of image files, which the `image` crate does.
//!
//! Nothing in this file is proved: each function makes one call into the
//! crate, and its contract gives the call's result a name. The names say
//! only that the same arguments give the same result.

use vstd::prelude::*;

verus! {

/// `image::DynamicImage`, a decoded image. Its inside is not visible here.
#[verifier::external_type_specification]
#[verifier::external_body]
pub struct ExDynamicImage(image::DynamicImage);

/// `image::ImageFormat`, the name of a file format. Its inside is not visible here.
#[verifier::external_type_specification]
#[verifier::external_body]
pub struct ExImageFormat(image::ImageFormat);

/// The format that `image::ImageFormat::from_path` reads off a path's
/// extension, if it knows the extension.
pub uninterp spec fn format_of_path(path: Seq<char>) -> Option<image::ImageFormat>;

/// The image that `image::load_from_memory_with_format` decodes from these
/// bytes read as this format, if they decode.
pub uninterp spec fn decoded_image(bytes: Seq<u8>, format: image::ImageFormat) -> Option<
    image::DynamicImage,
>;

/// What `image::DynamicImage::width` returns for an image.
pub uninterp spec fn width_of(img: image::DynamicImage) -> u32;

/// What `image::DynamicImage::height` returns for an image.
pub uninterp spec fn height_of(img: image::DynamicImage) -> u32;

/// What `image::DynamicImage::has_alpha` returns for an image.
pub uninterp spec fn has_alpha_of(img: image::DynamicImage) -> bool;

/// The image that `image::DynamicImage::flipv` makes of an image.
pub uninterp spec fn flipped(img: image::DynamicImage) -> image::DynamicImage;

/// The bytes that `image::DynamicImage::into_bytes` returns for an image.
pub uninterp spec fn bytes_of(img: image::DynamicImage) -> Seq<u8>;

/// Calls `image::ImageFormat::from_path`, which looks at nothing but the
/// path's extension and reads no file. Claims that the result is a function
/// of the path; an extension that the crate does not know gives `None`.
#[verifier::external_body]
pub(crate) fn format_from_path(path: &str) -> (format: Option<image::ImageFormat>)
    ensures
        format == format_of_path(path@),
{
    image::ImageFormat::from_path(path).ok()
}

/// Calls `image::load_from_memory_with_format`. Claims that the result is a
/// function of the bytes and the format; bytes that do not decode give `None`.
#[verifier::external_body]
pub(crate) fn load_with_format(bytes: &[u8], format: image::ImageFormat) -> (img: Option<
    image::DynamicImage,
>)
    ensures
        img == decoded_image(bytes@, format),
{
    image::load_from_memory_with_format(bytes, format).ok()
}

/// Calls `image::DynamicImage::width`.
#[verifier::external_body]
pub(crate) fn image_width(img: &image::DynamicImage) -> (width: u32)
    ensures
        width == width_of(*img),
{
    img.width()
}

/// Calls `image::DynamicImage::height`.
#[verifier::external_body]
pub(crate) fn image_height(img: &image::DynamicImage) -> (height: u32)
    ensures
        height == height_of(*img),
{
    img.height()
}

/// Calls `image::DynamicImage::has_alpha`, which says whether the image's
/// pixel type has an alpha channel.
#[verifier::external_body]
pub(crate) fn image_has_alpha(img: &image::DynamicImage) -> (alpha: bool)
    ensures
        alpha == has_alpha_of(*img),
{
    img.has_alpha()
}

/// Calls `image::DynamicImage::flipv`, which makes a copy with the rows in
/// reverse order.
#[verifier::external_body]
pub(crate) fn image_flipv(img: &image::DynamicImage) -> (out: image::DynamicImage)
    ensures
        out == flipped(*img),
{
    img.flipv()
}

/// Calls `image::DynamicImage::into_bytes`, which hands out the pixels as bytes.
#[verifier::external_body]
pub(crate) fn image_into_bytes(img: image::DynamicImage) -> (bytes: Vec<u8>)
    ensures
        bytes@ == bytes_of(img),
{
    img.into_bytes()
}

} // verus!
