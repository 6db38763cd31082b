//! The three locations a compositing run works with: the two source images
//! and the output target. The strings themselves come from an outside
//! argument collector.

use vstd::prelude::*;

verus! {

/// The locations of the two source images and of the output image.
#[derive(Debug)]
pub struct ProgramArgs {
    pub fir_img_loc: String,
    pub sec_img_loc: String,
    pub out_img_loc: String,
}

impl ProgramArgs {
    /// Bundles the two source locations and the output location.
    pub fn new(fir_img_loc: String, sec_img_loc: String, out_img_loc: String) -> (args: ProgramArgs)
        ensures
            args.fir_img_loc@ == fir_img_loc@,
            args.sec_img_loc@ == sec_img_loc@,
            args.out_img_loc@ == out_img_loc@,
    {
        ProgramArgs { fir_img_loc, sec_img_loc, out_img_loc }
    }
}

} // verus!
