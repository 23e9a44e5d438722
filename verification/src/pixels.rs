//! Pixel access: the colour samples of a decoded image, read through the
//! `image` crate.

use vstd::prelude::*;

verus! {

/// One colour sample: red, green and blue, each from 0 to 255.
#[derive(Clone, Copy, Debug, PartialEq, Eq, Structural)]
pub struct Rgb {
    pub r: u8,
    pub g: u8,
    pub b: u8,
}

/// `image::DynamicImage`, a decoded image of any pixel format. What it holds is
/// known only through `image_rows`, `image_width` and `image_is_integral`.
#[verifier::external_type_specification]
#[verifier::external_body]
pub struct ExDynamicImage(image::DynamicImage);

/// What an image holds: its rows from the top down, each row the colours of its
/// pixels from left to right, as `GenericImageView::get_pixel` gives them.
pub uninterp spec fn image_rows(img: image::DynamicImage) -> Seq<Seq<Rgb>>;

/// Number of pixels in a row of the image, which it has also where it has no
/// row: what `GenericImageView::width` returns.
pub uninterp spec fn image_width(img: image::DynamicImage) -> nat;

/// Whether the image stores its samples as integers, of 8 or of 16 bits. The
/// other images store them as floating-point numbers, which may hold a value
/// that is no number.
pub uninterp spec fn image_is_integral(img: image::DynamicImage) -> bool;

/// Tells the variants of `DynamicImage` apart: the eight whose samples are `u8`
/// or `u16` give `true`, the two whose samples are `f32` and any variant that a
/// later version adds give `false`. The result is named `image_is_integral`.
#[verifier::external_body]
pub(crate) fn source_is_integral(img: &image::DynamicImage) -> (yes: bool)
    ensures
        yes == image_is_integral(*img),
{
    match img {
        image::DynamicImage::ImageLuma8(_) => true,
        image::DynamicImage::ImageLumaA8(_) => true,
        image::DynamicImage::ImageRgb8(_) => true,
        image::DynamicImage::ImageRgba8(_) => true,
        image::DynamicImage::ImageLuma16(_) => true,
        image::DynamicImage::ImageLumaA16(_) => true,
        image::DynamicImage::ImageRgb16(_) => true,
        image::DynamicImage::ImageRgba16(_) => true,
        image::DynamicImage::ImageRgb32F(_) => false,
        image::DynamicImage::ImageRgba32F(_) => false,
        _ => false,
    }
}

/// Calls `GenericImageView::width` on a `DynamicImage`, which gives the first
/// component of the image's dimensions. The result is named `image_width`.
#[verifier::external_body]
pub(crate) fn source_width(img: &image::DynamicImage) -> (w: u32)
    ensures
        w == image_width(*img),
{
    image::GenericImageView::width(img)
}

/// Calls `GenericImageView::height` on a `DynamicImage`, which gives the second
/// component of the image's dimensions: the number of its rows.
#[verifier::external_body]
pub(crate) fn source_height(img: &image::DynamicImage) -> (h: u32)
    ensures
        h == image_rows(*img).len(),
{
    image::GenericImageView::height(img)
}

/// Calls `GenericImageView::get_pixel` on a `DynamicImage`, which converts the
/// stored pixel to 8-bit RGBA, and keeps the first three channels. The call
/// panics outside the image's bounds, so both coordinates must lie inside
/// them. It also panics where a floating-point sample is no number, since the
/// conversion of such a sample to 8 bits unwraps a failed cast; so the image
/// must be one of integer samples, whose conversion is integer arithmetic that
/// cannot fail. The result is the entry of column `x` in row `y` of
/// `image_rows`.
#[verifier::external_body]
pub(crate) fn source_pixel(img: &image::DynamicImage, x: u32, y: u32) -> (p: Rgb)
    requires
        image_is_integral(*img),
        x < image_width(*img),
        y < image_rows(*img).len(),
    ensures
        p == image_rows(*img)[y as int][x as int],
{
    let rgba = image::GenericImageView::get_pixel(img, x, y);
    Rgb { r: rgba.0[0], g: rgba.0[1], b: rgba.0[2] }
}

} // verus!
