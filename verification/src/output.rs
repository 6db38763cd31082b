//! The output side of the pipeline: the error kinds a compositing run can
//! end with, and the capacity-bounded buffer that receives the composited
//! pixel data before it is handed to an encoder.

use vstd::prelude::*;

verus! {

/// The ways a compositing run can fail.
#[derive(Clone, Copy, Debug, PartialEq, Eq, Structural)]
pub enum ImageDataError {
    /// The two source images were decoded from different container formats.
    FormatMismatch,
    /// Pixel data was offered to an output buffer whose pre-allocated
    /// capacity is smaller than the data.
    BufferCapacityExceeded,
}

/// An owned, capacity-bounded byte buffer for the final image. The capacity
/// is fixed at construction as `width * height * 4` bytes, and `set_data`
/// refuses any buffer that would exceed it.
pub struct FloatingImage {
    pub width: u32,
    pub height: u32,
    pub data: Vec<u8>,
    pub name: String,
}

/// The pixel count of a `u32`-dimensioned image is nonnegative, whichever
/// way round the product is written.
proof fn lemma_pixel_count_nonneg(w: u32, h: u32)
    ensures
        h as int * w as int == w as int * h as int,
        w as int * h as int >= 0,
{
    assert(w as int * h as int >= 0) by (nonlinear_arith)
        requires
            w as int >= 0,
            h as int >= 0,
    ;
}

impl FloatingImage {
    /// The fixed capacity: one RGBA pixel of 4 bytes for each of
    /// `width * height` pixels.
    pub open spec fn capacity(&self) -> int {
        self.width as int * self.height as int * 4
    }

    /// Well-formedness: the capacity was computable at construction, and the
    /// installed data never exceeds it.
    pub open spec fn wf(&self) -> bool {
        &&& self.capacity() <= u32::MAX
        &&& self.data@.len() <= self.capacity()
    }

    /// Creates an empty output buffer for a `width` by `height` RGBA image,
    /// to be written to the target identified by `name`.
    pub fn new(width: u32, height: u32, name: String) -> (img: FloatingImage)
        requires
            width as int * height as int * 4 <= u32::MAX,
        ensures
            img.width == width,
            img.height == height,
            img.name@ == name@,
            img.data@ == Seq::<u8>::empty(),
            img.wf(),
    {
        let buffer_capacity: u32 = height * width * 4;
        let buffer: Vec<u8> = Vec::with_capacity(buffer_capacity as usize);

        FloatingImage { width, height, data: buffer, name }
    }

    /// Installs `data` as the buffer's contents. Succeeds exactly when the
    /// data fits the capacity fixed at construction; on failure the buffer is
    /// left untouched.
    pub fn set_data(&mut self, data: Vec<u8>) -> (result: Result<(), ImageDataError>)
        requires
            old(self).wf(),
        ensures
            result is Ok <==> data@.len() <= old(self).capacity(),
            result is Ok ==> {
                &&& final(self).width == old(self).width
                &&& final(self).height == old(self).height
                &&& final(self).name@ == old(self).name@
                &&& final(self).data@ == data@
            },
            result is Err ==> {
                &&& *final(self) == *old(self)
                &&& result == Err::<(), ImageDataError>(ImageDataError::BufferCapacityExceeded)
            },
            final(self).wf(),
    {
        proof {
            lemma_pixel_count_nonneg(self.width, self.height);
        }
        let capacity: u32 = self.height * self.width * 4;
        if data.len() > capacity as usize {
            return Err(ImageDataError::BufferCapacityExceeded);
        }

        self.data = data;
        Ok(())
    }
}

} // verus!
