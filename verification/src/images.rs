use vstd::prelude::*;
use image::GenericImageView;
use crate::locator::LocateResult;
use crate::locator::locate;
use crate::locator::locate_post;
use crate::pixels::Bitmap;
use crate::pixels::BitmapView;
use crate::pixels::Pixel;

verus! {

/// Declares the `image` crate's `DynamicImage` as an opaque outside type,
/// so that it can stand in signatures here.
#[verifier::external_type_specification]
#[verifier::external_body]
pub struct ExDynamicImage(image::DynamicImage);

/// The bitmap a `DynamicImage` holds: its dimensions and its row-major RGBA
/// pixels. A function of the image value alone.
pub uninterp spec fn image_view(img: image::DynamicImage) -> BitmapView;

/// Relies on `GenericImageView::dimensions` of the `image` crate's
/// `DynamicImage`: it returns the image's width and height.
#[verifier::external_body]
fn image_dimensions(img: &image::DynamicImage) -> (r: (u32, u32))
    ensures
        r.0 == image_view(*img).width,
        r.1 == image_view(*img).height,
{
    img.dimensions()
}

/// Relies on `GenericImageView::pixels` of the `image` crate's
/// `DynamicImage`: it yields exactly one RGBA pixel per coordinate, in
/// row-major order, so the copied buffer has `width * height` entries.
#[verifier::external_body]
fn image_pixel_buffer(img: &image::DynamicImage) -> (r: Vec<Pixel>)
    ensures
        r@ == image_view(*img).pixels,
        r@.len() == image_view(*img).width * image_view(*img).height,
{
    img.pixels().map(
        |(_x, _y, p)| Pixel { r: p.0[0], g: p.0[1], b: p.0[2], a: p.0[3] },
    ).collect()
}

fn image_to_bitmap(img: &image::DynamicImage) -> (r: Bitmap)
    ensures
        r@ == image_view(*img),
        r@.wf(),
{
    let dims = image_dimensions(img);
    let pixels = image_pixel_buffer(img);
    Bitmap { width: dims.0, height: dims.1, pixels }
}

/// Searches a screenshot for a template image: the raster-order scan of
/// `locate`, run on the two images' pixels. The confidence threshold is a
/// fraction (defaulting to three quarters) and the channel tolerance
/// defaults to 25.
pub fn locate_image(
    screenshot: &image::DynamicImage,
    img: &image::DynamicImage,
    min_confidence: Option<(u32, u32)>,
    tolerance: Option<u8>,
) -> (r: Option<LocateResult>)
    requires
        match min_confidence {
            Some(c) => c.1 > 0,
            None => true,
        },
    ensures
        ({
            let num = match min_confidence {
                Some(c) => c.0,
                None => 3u32,
            };
            let den = match min_confidence {
                Some(c) => c.1,
                None => 4u32,
            };
            let tol = match tolerance {
                Some(t) => t,
                None => 25u8,
            };
            locate_post(image_view(*screenshot), image_view(*img), num, den, tol, r)
        }),
{
    let conf: (u32, u32) = match min_confidence {
        Some(c) => c,
        None => (3, 4),
    };
    let tol: u8 = match tolerance {
        Some(t) => t,
        None => 25,
    };
    let hay = image_to_bitmap(screenshot);
    let ndl = image_to_bitmap(img);
    locate(&hay, &ndl, conf.0, conf.1, tol)
}

/// Searches the screenshot for one reference glyph with the capture
/// pipeline's fixed thresholds: nine tenths confidence, channel tolerance
/// ten.
pub fn find_timer_spect(screenshot: &image::DynamicImage, pattern: &image::DynamicImage) -> (r:
    Option<LocateResult>)
    ensures
        locate_post(image_view(*screenshot), image_view(*pattern), 9, 10, 10, r),
{
    locate_image(screenshot, pattern, Some((9, 10)), Some(10))
}

} // verus!
