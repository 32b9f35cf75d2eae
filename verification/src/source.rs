//! The source artwork: a decoded `image::DynamicImage`, read one sample at a
//! time. Nothing inside such an image is visible to the verifier, so its
//! size, its samples and whether it stores them as floating-point numbers are
//! named here, and the three functions that ask the image for them are given
//! contracts over those names, which are believed and not proved.
//!
//! Samples are read only from images that store integers. Reading a sample
//! converts it to eight bits, and for a floating-point sample that is not a
//! number the conversion panics.

use vstd::prelude::*;
use image::DynamicImage;
use crate::row::Pixel;

verus! {

/// `image::DynamicImage`, a decoded image of any pixel format, taken as it
/// is: nothing inside it is visible here.
#[verifier::external_type_specification]
#[verifier::external_body]
pub struct ExDynamicImage(image::DynamicImage);

/// The size of an image, its number of columns and its number of rows, as
/// `GenericImageView::dimensions` reports it.
pub uninterp spec fn image_size(img: DynamicImage) -> (u32, u32);

/// The samples of an image as (red, green, blue, alpha), by (column, row), as
/// `GenericImageView::get_pixel` returns them. Only the places inside the
/// image mean anything.
pub uninterp spec fn image_samples(img: DynamicImage) -> Map<(int, int), (u8, u8, u8, u8)>;

/// Whether an image stores its samples as floating-point numbers, that is
/// whether it is one of the variants `ImageRgb32F` and `ImageRgba32F` of
/// `DynamicImage`.
pub uninterp spec fn image_holds_floats(img: DynamicImage) -> bool;

/// The number of columns of an image.
pub open spec fn image_width(img: DynamicImage) -> int {
    image_size(img).0 as int
}

/// The number of rows of an image.
pub open spec fn image_height(img: DynamicImage) -> int {
    image_size(img).1 as int
}

/// Asks an image for its size with `GenericImageView::dimensions`, which
/// returns the width and the height of the pixel buffer behind the image.
#[verifier::external_body]
pub(crate) fn dimensions(img: &DynamicImage) -> (size: (u32, u32))
    ensures
        size == image_size(*img),
{
    image::GenericImageView::dimensions(img)
}

/// Tells the variants of `DynamicImage` apart: the two that store
/// floating-point samples, and any variant not known here, count as holding
/// floats; the eight that store 8-bit or 16-bit integers do not.
#[verifier::external_body]
pub(crate) fn holds_floats(img: &DynamicImage) -> (floats: bool)
    ensures
        floats == image_holds_floats(*img),
{
    match img {
        DynamicImage::ImageLuma8(_) => false,
        DynamicImage::ImageLumaA8(_) => false,
        DynamicImage::ImageRgb8(_) => false,
        DynamicImage::ImageRgba8(_) => false,
        DynamicImage::ImageLuma16(_) => false,
        DynamicImage::ImageLumaA16(_) => false,
        DynamicImage::ImageRgb16(_) => false,
        DynamicImage::ImageRgba16(_) => false,
        DynamicImage::ImageRgb32F(_) => true,
        DynamicImage::ImageRgba32F(_) => true,
        _ => true,
    }
}

/// The sample at column `x` and row `y` of an image.
pub open spec fn sample_at(img: DynamicImage, x: int, y: int) -> Pixel {
    let s = image_samples(img)[(x, y)];
    Pixel { red: s.0, green: s.1, blue: s.2, alpha: s.3 }
}

/// Reads one sample with `GenericImageView::get_pixel`, which converts the
/// stored pixel to 8-bit RGBA. The call panics outside the image, and on a
/// floating-point sample that is not a number, where the conversion unwraps
/// a failed cast; 8-bit samples are taken as they are and 16-bit samples are
/// scaled by integer arithmetic that cannot fail. The contract claims that
/// the call returns inside an image of integer samples and that what it
/// returns is the image's sample at that place.
#[verifier::external_body]
pub(crate) fn get_pixel(img: &DynamicImage, x: u32, y: u32) -> (p: Pixel)
    requires
        !image_holds_floats(*img),
        x < image_size(*img).0,
        y < image_size(*img).1,
    ensures
        (p.red, p.green, p.blue, p.alpha) == image_samples(*img)[(x as int, y as int)],
{
    let c = image::GenericImageView::get_pixel(img, x, y);
    Pixel { red: c[0], green: c[1], blue: c[2], alpha: c[3] }
}

/// The eight samples of one scan line: row `y`, from column `left` on, one
/// sample every `stride` columns.
pub open spec fn row_samples(img: DynamicImage, left: int, stride: int, y: int) -> Seq<Pixel> {
    Seq::new(8, |x: int| sample_at(img, left + x * stride, y))
}

/// Reads the eight samples of one scan line.
pub fn sample_row(img: &DynamicImage, left: u32, stride: u32, y: u32) -> (samples: [Pixel; 8])
    requires
        !image_holds_floats(*img),
        left + 7 * stride < image_width(*img),
        y < image_height(*img),
    ensures
        samples@ == row_samples(*img, left as int, stride as int, y as int),
{
    let mut samples: [Pixel; 8] = [Pixel { red: 0, green: 0, blue: 0, alpha: 0 }; 8];
    let mut column: u32 = left;
    let mut x: usize = 0;
    while x < 8
        invariant
            x <= 8,
            !image_holds_floats(*img),
            left + 7 * stride < image_width(*img),
            y < image_height(*img),
            x < 8 ==> column == left + x * stride,
            forall|k: int|
                0 <= k < x ==> samples@[k] == sample_at(*img, left + k * stride, y as int),
        decreases 8 - x,
    {
        proof {
            let k = x as int;
            let s = stride as int;
            assert(k * s <= 7 * s && (k + 1) * s == k * s + s) by (nonlinear_arith)
                requires
                    0 <= k <= 7,
                    0 <= s,
            ;
            assert(k < 7 ==> (k + 1) * s <= 7 * s) by (nonlinear_arith)
                requires
                    0 <= k,
                    0 <= s,
            ;
        }
        samples[x] = get_pixel(img, column, y);
        x += 1;
        if x < 8 {
            column = column + stride;
        }
    }
    samples
}

} // verus!
