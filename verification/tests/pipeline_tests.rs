use combiner::args::ProgramArgs;
use combiner::image_data::{DecodedImage, FormatTag};
use combiner::output::{FloatingImage, ImageDataError};
use combiner::pipeline::composite;
use combiner::reconcile::standardize_size;

fn solid_image(width: u32, height: u32, value: u8, code: u32) -> DecodedImage {
    let pixels: Vec<u8> = vec![value; (width * height * 4) as usize];
    DecodedImage::new(width, height, pixels, FormatTag { code })
}

#[test]
fn get_smallest_dimensions_picks_smaller_area() {
    assert_eq!(combiner::reconcile::get_smallest_dimensions((2, 3), (4, 4)), (2, 3));
    assert_eq!(combiner::reconcile::get_smallest_dimensions((4, 4), (2, 3)), (2, 3));
}

#[test]
fn get_smallest_dimensions_tie_favors_first() {
    assert_eq!(combiner::reconcile::get_smallest_dimensions((4, 2), (2, 4)), (4, 2));
    assert_eq!(combiner::reconcile::get_smallest_dimensions((3, 3), (3, 3)), (3, 3));
}

#[test]
fn reconcile_equal_dimensions_leaves_both_unchanged() {
    let first = DecodedImage::new(2, 3, (0..24).collect(), FormatTag { code: 1 });
    let second = DecodedImage::new(2, 3, (100..124).collect(), FormatTag { code: 1 });
    let (a, b) = standardize_size(first, second);
    assert_eq!((a.width, a.height), (2, 3));
    assert_eq!((b.width, b.height), (2, 3));
    assert_eq!(a.pixels, (0..24).collect::<Vec<u8>>());
    assert_eq!(b.pixels, (100..124).collect::<Vec<u8>>());
}

#[test]
fn reconcile_resizes_the_larger_image_down() {
    let first = solid_image(4, 4, 0x33, 7);
    let second = solid_image(2, 2, 0x44, 7);
    let (a, b) = standardize_size(first, second);
    // The smaller image is bit-for-bit unchanged.
    assert_eq!((b.width, b.height), (2, 2));
    assert_eq!(b.pixels, vec![0x44; 16]);
    // The larger image now has exactly the smaller's dimensions; its buffer
    // really was resampled, not handed back.
    assert_eq!((a.width, a.height), (2, 2));
    assert_eq!(a.pixels.len(), 16);
}

#[test]
fn reconcile_resizes_whichever_side_is_larger() {
    let first = solid_image(2, 2, 0x44, 7);
    let second = solid_image(4, 4, 0x33, 7);
    let (a, b) = standardize_size(first, second);
    assert_eq!((a.width, a.height), (2, 2));
    assert_eq!(a.pixels, vec![0x44; 16]);
    assert_eq!((b.width, b.height), (2, 2));
    assert_eq!(b.pixels.len(), 16);
}

#[test]
fn reconcile_tie_targets_first_dimensions() {
    // Equal areas with different shapes: the first image's dimensions win,
    // and the second image is the one resampled.
    let first = solid_image(4, 2, 0x10, 7);
    let second = solid_image(2, 4, 0x20, 7);
    let (a, b) = standardize_size(first, second);
    assert_eq!((a.width, a.height), (4, 2));
    assert_eq!(a.pixels, vec![0x10; 32]);
    assert_eq!((b.width, b.height), (4, 2));
    assert_eq!(b.pixels.len(), 32);
}

#[test]
fn output_buffer_starts_empty() {
    let img = FloatingImage::new(2, 2, String::from("out.png"));
    assert_eq!(img.width, 2);
    assert_eq!(img.height, 2);
    assert_eq!(img.name, "out.png");
    assert!(img.data.is_empty());
}

#[test]
fn set_data_accepts_up_to_capacity() {
    let mut img = FloatingImage::new(2, 2, String::from("out.png"));
    assert!(img.set_data(vec![7; 16]).is_ok());
    assert_eq!(img.data, vec![7; 16]);
    let mut img2 = FloatingImage::new(2, 2, String::from("out.png"));
    assert!(img2.set_data(Vec::new()).is_ok());
    assert!(img2.data.is_empty());
}

#[test]
fn set_data_rejects_oversized_data_untouched() {
    let mut img = FloatingImage::new(2, 2, String::from("out.png"));
    assert!(img.set_data(vec![7; 16]).is_ok());
    let result = img.set_data(vec![9; 17]);
    assert_eq!(result, Err(ImageDataError::BufferCapacityExceeded));
    // The previously installed data is untouched.
    assert_eq!(img.data, vec![7; 16]);
    assert_eq!((img.width, img.height), (2, 2));
    assert_eq!(img.name, "out.png");
}

#[test]
fn composite_checkerboards_two_equal_images() {
    let first = solid_image(4, 4, 0xFF, 3);
    let second = solid_image(4, 4, 0x00, 3);
    let output = composite(first, second, String::from("out.png")).unwrap();
    assert_eq!((output.width, output.height), (4, 4));
    assert_eq!(output.name, "out.png");
    assert_eq!(output.data.len(), 64);
    for pixel in 0..16 {
        let expected = if pixel % 2 == 0 { 0xFF } else { 0x00 };
        for channel in 0..4 {
            assert_eq!(output.data[pixel * 4 + channel], expected);
        }
    }
}

#[test]
fn composite_refuses_different_formats() {
    let first = solid_image(4, 4, 0xFF, 3);
    let second = solid_image(4, 4, 0x00, 4);
    let result = composite(first, second, String::from("out.png"));
    assert_eq!(result.err(), Some(ImageDataError::FormatMismatch));
}

#[test]
fn composite_shrinks_to_the_smaller_image() {
    let first = solid_image(2, 2, 0xFF, 3);
    let second = solid_image(4, 4, 0x00, 3);
    let output = composite(first, second, String::from("out.png")).unwrap();
    // The smaller area wins: a 2 by 2 composite, even pixels from the
    // untouched first image, odd pixels from the second image resized down.
    assert_eq!((output.width, output.height), (2, 2));
    assert_eq!(output.data.len(), 16);
    assert_eq!(
        output.data,
        vec![
            0xFF, 0xFF, 0xFF, 0xFF, 0x00, 0x00, 0x00, 0x00, 0xFF, 0xFF, 0xFF, 0xFF, 0x00, 0x00,
            0x00, 0x00,
        ]
    );
}

#[test]
fn program_args_keeps_the_three_locations() {
    let args = ProgramArgs::new(
        String::from("a.png"),
        String::from("b.png"),
        String::from("out.png"),
    );
    assert_eq!(args.fir_img_loc, "a.png");
    assert_eq!(args.sec_img_loc, "b.png");
    assert_eq!(args.out_img_loc, "out.png");
}
