//! Sizes of the buffers into which the image host decodes a picture.
use vstd::prelude::*;

verus! {

/// The number of channel values in a picture of `w` by `h` pixels with three
/// channels (red, green and blue, in either order).
pub open spec fn rgb_values(w: u32, h: u32) -> int {
    3 * w * h
}

/// The number of channel values that a `w` by `h` three-channel picture holds,
/// or `None` where that number does not fit the host's 32-bit lengths.
pub fn rgb_value_count(w: u32, h: u32) -> (r: Option<u32>)
    ensures
        r == (if rgb_values(w, h) <= u32::MAX {
            Some(rgb_values(w, h) as u32)
        } else {
            None::<u32>
        }),
{
    match w.checked_mul(h) {
        None => {
            assert(w * h <= 3 * w * h) by (nonlinear_arith);
            None
        },
        Some(pixels) => {
            assert(pixels * 3 == 3 * w * h) by (nonlinear_arith)
                requires
                    pixels == w * h,
            ;
            pixels.checked_mul(3)
        },
    }
}

} // verus!
