//! The dimension reconciler: picks the smaller pixel-area of two decoded
//! images as the target size and resizes whichever image does not already
//! have exactly those dimensions.
//!
//! Zero-width or zero-height images are excluded by precondition rather than
//! resized: the resampler has nothing meaningful to produce for them.

use crate::image_data::DecodedImage;
use vstd::prelude::*;

verus! {

/// Returns whichever of the two `(width, height)` pairs has the smaller
/// pixel-area; a tie favors the first pair.
pub open spec fn smallest_dimensions(first_dim: (u32, u32), second_dim: (u32, u32)) -> (u32, u32) {
    if first_dim.0 * first_dim.1 <= second_dim.0 * second_dim.1 {
        first_dim
    } else {
        second_dim
    }
}

/// The pixel-area of a pair of `u32` dimensions always fits in a `u64`.
proof fn lemma_area_fits_u64(w: u32, h: u32)
    ensures
        w * h <= u64::MAX,
{
    assert(w * h <= u64::MAX) by (nonlinear_arith)
        requires
            w <= u32::MAX,
            h <= u32::MAX,
    ;
}

/// Picks the `(width, height)` pair with the smaller pixel-area, favoring the
/// first pair on a tie.
pub fn get_smallest_dimensions(first_dim: (u32, u32), second_dim: (u32, u32)) -> (smallest: (u32, u32))
    ensures
        smallest == smallest_dimensions(first_dim, second_dim),
{
    proof {
        lemma_area_fits_u64(first_dim.0, first_dim.1);
        lemma_area_fits_u64(second_dim.0, second_dim.1);
    }
    let first_pixel_count: u64 = (first_dim.0 as u64) * (first_dim.1 as u64);
    let second_pixel_count: u64 = (second_dim.0 as u64) * (second_dim.1 as u64);

    if first_pixel_count <= second_pixel_count {
        first_dim
    } else {
        second_dim
    }
}

/// The RGBA buffer that the triangle-filter resampler produces from the
/// buffer `pixels` of a `src_w` by `src_h` image when asked for a `dst_w` by
/// `dst_h` image. The resampling is deterministic: it depends on its
/// arguments alone.
pub uninterp spec fn resized_of(pixels: Seq<u8>, src_w: u32, src_h: u32, dst_w: u32, dst_h: u32) -> Seq<u8>;

/// Relies on `image::DynamicImage::resize_exact` with the triangle filter
/// (and on `image::RgbaImage::from_raw` / `to_rgba8` to carry the raw bytes
/// in and out): it resamples an RGBA buffer to exactly the requested
/// dimensions, returning one 4-byte pixel per target position. The
/// preconditions exclude the sizes on which the resampler's allocations
/// would fail: besides the 4-byte-pixel source and target buffers it
/// materializes an intermediate source-width by target-height image of
/// 16-byte pixels, and a single Rust allocation holds at most `isize::MAX`
/// bytes.
#[verifier::external_body]
fn resize_rgba_exact(pixels: &Vec<u8>, src_w: u32, src_h: u32, dst_w: u32, dst_h: u32) -> (resized: Vec<u8>)
    requires
        pixels@.len() == src_w as int * src_h as int * 4,
        pixels@.len() <= isize::MAX,
        src_w > 0,
        src_h > 0,
        dst_w > 0,
        dst_h > 0,
        src_w as int * dst_h as int * 16 <= isize::MAX,
        dst_w as int * dst_h as int * 4 <= isize::MAX,
    ensures
        resized@ == resized_of(pixels@, src_w, src_h, dst_w, dst_h),
        resized@.len() == dst_w as int * dst_h as int * 4,
{
    let buffer = image::RgbaImage::from_raw(src_w, src_h, pixels.clone()).unwrap();
    let resized = image::DynamicImage::ImageRgba8(buffer).resize_exact(
        dst_w,
        dst_h,
        image::imageops::FilterType::Triangle,
    );
    resized.to_rgba8().into_vec()
}

/// The target dimensions chosen for a pair of decoded images: whichever
/// image's pixel-area is smaller, the first image's on a tie.
pub open spec fn target_dimensions(first: &DecodedImage, second: &DecodedImage) -> (u32, u32) {
    smallest_dimensions((first.width, first.height), (second.width, second.height))
}

/// The pixel buffer an image contributes once the target dimensions are
/// fixed: its own buffer when its dimensions already match the target, the
/// resampled buffer otherwise.
pub open spec fn reconciled_pixels(img: &DecodedImage, target: (u32, u32)) -> Seq<u8> {
    if img.width == target.0 && img.height == target.1 {
        img.pixels@
    } else {
        resized_of(img.pixels@, img.width, img.height, target.0, target.1)
    }
}

/// Brings two decoded images to the shared target dimensions: the image
/// whose dimensions already equal the target is returned bit-for-bit
/// unchanged, the other is resampled to exactly the target width and height.
/// Formats are preserved. In particular, two images of equal dimensions both
/// come back unchanged, and when the pixel-areas differ, the larger image is
/// the one resized to the smaller's dimensions.
pub fn standardize_size(first_image: DecodedImage, second_image: DecodedImage) -> (standardized: (DecodedImage, DecodedImage))
    requires
        first_image.wf(),
        second_image.wf(),
        first_image.width > 0,
        first_image.height > 0,
        second_image.width > 0,
        second_image.height > 0,
        (first_image.width, first_image.height) != target_dimensions(&first_image, &second_image)
            ==> first_image.width as int * second_image.height as int * 16 <= isize::MAX,
        (second_image.width, second_image.height) != target_dimensions(&first_image, &second_image)
            ==> second_image.width as int * first_image.height as int * 16 <= isize::MAX,
    ensures
        standardized.0.wf(),
        standardized.1.wf(),
        (standardized.0.width, standardized.0.height) == target_dimensions(&first_image, &second_image),
        (standardized.1.width, standardized.1.height) == target_dimensions(&first_image, &second_image),
        standardized.0.format == first_image.format,
        standardized.1.format == second_image.format,
        standardized.0.pixels@ == reconciled_pixels(&first_image, target_dimensions(&first_image, &second_image)),
        standardized.1.pixels@ == reconciled_pixels(&second_image, target_dimensions(&first_image, &second_image)),
        (first_image.width, first_image.height) == target_dimensions(&first_image, &second_image)
            ==> standardized.0.same_image(&first_image),
        (second_image.width, second_image.height) == target_dimensions(&first_image, &second_image)
            ==> standardized.1.same_image(&second_image),
        first_image.width == second_image.width && first_image.height == second_image.height
            ==> standardized.0.same_image(&first_image) && standardized.1.same_image(&second_image),
        first_image.area() < second_image.area()
            ==> standardized.0.same_image(&first_image)
                && standardized.1.width == first_image.width
                && standardized.1.height == first_image.height,
        second_image.area() < first_image.area()
            ==> standardized.1.same_image(&second_image)
                && standardized.0.width == second_image.width
                && standardized.0.height == second_image.height,
{
    let (width, height) = get_smallest_dimensions(
        (first_image.width, first_image.height),
        (second_image.width, second_image.height),
    );

    let first_standardized: DecodedImage = resize_to_target(first_image, width, height);
    let second_standardized: DecodedImage = resize_to_target(second_image, width, height);
    (first_standardized, second_standardized)
}

/// Returns the image unchanged when it already has the target dimensions,
/// and the resampled image otherwise. The target must be the image's own
/// dimensions or ones whose buffer is no larger, so that the resampled
/// buffer is allocatable; a genuine resample also needs the resampler's
/// intermediate image to be allocatable.
fn resize_to_target(img: DecodedImage, width: u32, height: u32) -> (resized: DecodedImage)
    requires
        img.wf(),
        img.width > 0,
        img.height > 0,
        width > 0,
        height > 0,
        width as int * height as int <= img.area(),
        (img.width != width || img.height != height)
            ==> img.width as int * height as int * 16 <= isize::MAX,
    ensures
        resized.wf(),
        resized.width == width,
        resized.height == height,
        resized.format == img.format,
        resized.pixels@ == reconciled_pixels(&img, (width, height)),
        img.width == width && img.height == height ==> resized.same_image(&img),
{
    if img.width == width && img.height == height {
        img
    } else {
        let buf_len: usize = img.pixels.len();
        proof {
            lemma_smaller_buffer_fits(img.width, img.height, width, height, buf_len as int);
        }
        let pixels = resize_rgba_exact(&img.pixels, img.width, img.height, width, height);
        DecodedImage {
            width,
            height,
            pixels,
            format: img.format,
        }
    }
}

/// A target area no larger than the source's keeps the target buffer length
/// within the source buffer's, so it is an allocatable size too.
proof fn lemma_smaller_buffer_fits(src_w: u32, src_h: u32, dst_w: u32, dst_h: u32, src_len: int)
    requires
        src_len == src_w as int * src_h as int * 4,
        src_len <= isize::MAX,
        dst_w as int * dst_h as int <= src_w as int * src_h as int,
    ensures
        dst_w as int * dst_h as int * 4 <= isize::MAX,
{
}

} // verus!
