//! A small image-compositing library: it reconciles the dimensions of two
//! decoded RGBA images, interleaves their pixels in a checkerboard pattern
//! along the flattened buffer, and installs the result in a capacity-bounded
//! output buffer.

pub mod args;
pub mod image_data;
pub mod interleave;
pub mod output;
pub mod pipeline;
pub mod reconcile;
