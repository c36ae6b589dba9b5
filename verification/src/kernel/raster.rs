//! What this crate takes on trust about the images of the `image` crate.

use vstd::prelude::*;
use image::GenericImage;

verus! {

/// `image::DynamicImage`: an image in one of several pixel formats. The
/// verifier sees nothing inside it; what it holds goes by the two names
/// below.
#[verifier::external_type_specification]
#[verifier::external_body]
pub struct ExDynamicImage(image::DynamicImage);

/// The width and the height of an image, in pixels.
pub uninterp spec fn image_extent(img: image::DynamicImage) -> (nat, nat);

/// The sample buffer of an image that holds eight-bit RGBA pixels: row by row
/// from the top, four samples to a pixel. `None` for an image of any other
/// pixel format.
pub uninterp spec fn rgba8_samples(img: image::DynamicImage) -> Option<Seq<u8>>;

/// The samples `samples` of an image `width` pixels wide, with the pixel
/// `(x, y)` replaced.
pub open spec fn with_pixel(
    samples: Seq<u8>,
    width: int,
    x: int,
    y: int,
    red: u8,
    green: u8,
    blue: u8,
    alpha: u8,
) -> Seq<u8> {
    let at = 4 * (y * width + x);
    samples.update(at, red).update(at + 1, green).update(at + 2, blue).update(
        at + 3,
        alpha,
    )
}

/// `image::DynamicImage::new_rgba8`: a new image of eight-bit RGBA pixels with
/// the given extent and every sample zero. It panics where the buffer would be
/// larger than a vector can be, which the precondition rules out.
#[verifier::external_body]
pub(crate) fn new_rgba8(width: u32, height: u32) -> (img: image::DynamicImage)
    requires
        4 * width * height <= isize::MAX,
    ensures
        image_extent(img) == (width as nat, height as nat),
        rgba8_samples(img) == Some(Seq::new((4 * width * height) as nat, |i: int| 0u8)),
{
    image::DynamicImage::new_rgba8(width, height)
}

/// `image::GenericImage::put_pixel` on an `image::DynamicImage` of eight-bit
/// RGBA pixels: it stores the four samples of the pixel `(x, y)` and leaves
/// the extent and every other sample as they were. It panics outside the
/// image, which the precondition rules out.
#[verifier::external_body]
pub(crate) fn put_pixel(
    img: &mut image::DynamicImage,
    x: u32,
    y: u32,
    red: u8,
    green: u8,
    blue: u8,
    alpha: u8,
)
    requires
        rgba8_samples(*old(img)) is Some,
        x < image_extent(*old(img)).0,
        y < image_extent(*old(img)).1,
    ensures
        image_extent(*final(img)) == image_extent(*old(img)),
        rgba8_samples(*final(img)) == Some(
            with_pixel(
                rgba8_samples(*old(img))->0,
                image_extent(*old(img)).0 as int,
                x as int,
                y as int,
                red,
                green,
                blue,
                alpha,
            ),
        ),
{
    img.put_pixel(x, y, image::Rgba([red, green, blue, alpha]))
}

/// `image::DynamicImage::width`: the width of the image in pixels.
#[verifier::external_body]
pub(crate) fn width(img: &image::DynamicImage) -> (w: u32)
    ensures
        w == image_extent(*img).0,
{
    img.width()
}

/// `image::DynamicImage::height`: the height of the image in pixels.
#[verifier::external_body]
pub(crate) fn height(img: &image::DynamicImage) -> (h: u32)
    ensures
        h == image_extent(*img).1,
{
    img.height()
}

/// `image::DynamicImage::as_bytes`, copied into a vector: the sample buffer
/// as bytes. Of an image of eight-bit RGBA pixels these are the samples
/// themselves.
#[verifier::external_body]
pub(crate) fn sample_bytes(img: &image::DynamicImage) -> (bytes: Vec<u8>)
    ensures
        rgba8_samples(*img) matches Some(samples) ==> bytes@ == samples,
{
    img.as_bytes().to_vec()
}

} // verus!
