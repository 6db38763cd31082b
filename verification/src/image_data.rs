//! The decoded-image value that the compositing pipeline works on: plain
//! dimensions, a flat RGBA byte buffer, and the tag of the container format
//! the image was decoded from.

use vstd::prelude::*;

verus! {

/// Identifier of the container format an image was decoded from (PNG, JPEG,
/// ...). Two images can only be composited when their tags are equal.
#[derive(Clone, Copy, Debug, PartialEq, Eq, Structural)]
pub struct FormatTag {
    pub code: u32,
}

/// An image decoded to a flat RGBA byte buffer: every 4 consecutive bytes
/// hold one pixel's red, green, blue and alpha channels, row-major.
pub struct DecodedImage {
    pub width: u32,
    pub height: u32,
    pub pixels: Vec<u8>,
    pub format: FormatTag,
}

impl DecodedImage {
    /// Pixel-area of the image: width times height.
    pub open spec fn area(&self) -> int {
        self.width as int * self.height as int
    }

    /// Well-formedness: the buffer holds exactly `width * height` pixels of
    /// 4 bytes each, and is of a size a single Rust allocation can have (at
    /// most `isize::MAX` bytes).
    pub open spec fn wf(&self) -> bool {
        &&& self.pixels@.len() == self.area() * 4
        &&& self.area() * 4 <= isize::MAX
    }

    /// The two images are equal field for field, pixel buffer included.
    pub open spec fn same_image(&self, other: &DecodedImage) -> bool {
        &&& self.width == other.width
        &&& self.height == other.height
        &&& self.pixels@ == other.pixels@
        &&& self.format == other.format
    }

    /// Builds a decoded image from its parts; the buffer must hold exactly
    /// `width * height` whole RGBA pixels.
    pub fn new(width: u32, height: u32, pixels: Vec<u8>, format: FormatTag) -> (img: DecodedImage)
        requires
            pixels@.len() == width as int * height as int * 4,
            width as int * height as int * 4 <= isize::MAX,
        ensures
            img.width == width,
            img.height == height,
            img.pixels@ == pixels@,
            img.format == format,
            img.wf(),
    {
        DecodedImage { width, height, pixels, format }
    }
}

} // verus!
