//! Perceptual gamma correction for a single 8-bit channel.
//!
//! The remap is a fixed quadratic curve: the channel value is squared and
//! rescaled back to the 0..=255 range, rounding to the nearest integer.
//! It is pure and total, and keeps both endpoints fixed.

use vstd::prelude::*;

verus! {

/// The corrected value of one 8-bit channel: `x * x / 255`, rounded to the
/// nearest integer.
pub open spec fn gamma_value(x: u8) -> u8 {
    (((x as int) * (x as int) + 127) / 255) as u8
}

/// Apply the gamma curve to one channel.
pub fn gamma_correct(x: u8) -> (r: u8)
    ensures
        r == gamma_value(x),
{
    let wide: u32 = x as u32;
    proof {
        assert(wide * wide <= 255 * 255) by (nonlinear_arith)
            requires
                wide <= 255,
        ;
    }
    let scaled: u32 = (wide * wide + 127) / 255;
    scaled as u8
}

} // verus!
