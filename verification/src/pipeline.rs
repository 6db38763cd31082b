//! The compositing pipeline: a format-equality check, dimension
//! reconciliation, pixel interleaving, and installation of the result in a
//! capacity-bounded output buffer.

use crate::image_data::DecodedImage;
use crate::interleave::{alternate_pixels, interleaved};
use crate::output::{FloatingImage, ImageDataError};
use crate::reconcile::{reconciled_pixels, standardize_size, target_dimensions};
use vstd::prelude::*;

verus! {

/// Interleaves the pixel buffers of two decoded images of equal dimensions:
/// even-indexed pixels come from the first image, odd-indexed ones from the
/// second.
pub fn combine_images(first_image: DecodedImage, second_image: DecodedImage) -> (combined: Vec<u8>)
    requires
        first_image.wf(),
        second_image.wf(),
        first_image.width == second_image.width,
        first_image.height == second_image.height,
    ensures
        combined@ == interleaved(first_image.pixels@, second_image.pixels@),
        combined@.len() == first_image.pixels@.len(),
{
    proof {
        lemma_whole_pixels(first_image.pixels@.len() as int, first_image.area());
    }
    alternate_pixels(first_image.pixels, second_image.pixels)
}

/// A buffer of whole 4-byte pixels has a length that is a multiple of 4.
proof fn lemma_whole_pixels(len: int, pixel_count: int)
    requires
        len == pixel_count * 4,
    ensures
        len % 4 == 0,
{
    assert(len % 4 == 0) by (nonlinear_arith)
        requires
            len == pixel_count * 4,
    ;
}

/// Runs the whole pipeline on two decoded images: refuses images of
/// different container formats, reconciles the dimensions to the smaller
/// pixel-area, interleaves the two pixel buffers, and returns the filled
/// output buffer destined for the target `out_name`. Succeeds exactly when
/// the two format tags are equal. The size preconditions bound only the
/// composite's own buffer (whose capacity is a `u32` quantity) and the
/// resampler's intermediate allocation; the larger source image itself may
/// be as large as a decoder can produce.
pub fn composite(first_image: DecodedImage, second_image: DecodedImage, out_name: String) -> (result: Result<
    FloatingImage,
    ImageDataError,
>)
    requires
        first_image.wf(),
        second_image.wf(),
        first_image.width > 0,
        first_image.height > 0,
        second_image.width > 0,
        second_image.height > 0,
        first_image.area() <= second_image.area() ==> first_image.area() * 4 <= u32::MAX,
        second_image.area() < first_image.area() ==> second_image.area() * 4 <= u32::MAX,
        (first_image.width, first_image.height) != target_dimensions(&first_image, &second_image)
            ==> first_image.width as int * second_image.height as int * 16 <= isize::MAX,
        (second_image.width, second_image.height) != target_dimensions(&first_image, &second_image)
            ==> second_image.width as int * first_image.height as int * 16 <= isize::MAX,
    ensures
        result is Ok <==> first_image.format == second_image.format,
        result is Err ==> result == Err::<FloatingImage, ImageDataError>(ImageDataError::FormatMismatch),
        result is Ok ==> {
            let target = target_dimensions(&first_image, &second_image);
            &&& result->Ok_0.width == target.0
            &&& result->Ok_0.height == target.1
            &&& result->Ok_0.name@ == out_name@
            &&& result->Ok_0.data@ == interleaved(
                reconciled_pixels(&first_image, target),
                reconciled_pixels(&second_image, target),
            )
            &&& result->Ok_0.wf()
        },
{
    if first_image.format != second_image.format {
        return Err(ImageDataError::FormatMismatch);
    }

    let (first_image, second_image) = standardize_size(first_image, second_image);

    let mut output: FloatingImage = FloatingImage::new(first_image.width, first_image.height, out_name);
    let ghost data_len: int = first_image.pixels@.len() as int;
    let combined_data: Vec<u8> = combine_images(first_image, second_image);
    assert(data_len <= output.capacity());

    match output.set_data(combined_data) {
        Ok(_) => Ok(output),
        // Unreachable: the interleaved buffer has exactly the capacity the
        // output buffer was created with.
        Err(error) => Err(error),
    }
}

} // verus!
