//! Mapping pixels to the scene and colours to 8-bit channels.
use vstd::prelude::*;

verus! {

/// Largest value of an 8-bit channel.
pub const CHANNEL_MAX: u32 = 255;

/// A channel already scaled to `0..=255` and truncated, clamped to 8 bits.
pub fn quantize(scaled: u32) -> (r: u8)
    ensures
        r as u32 == if scaled < 255 { scaled } else { 255 },
{
    if scaled < CHANNEL_MAX {
        scaled as u8
    } else {
        CHANNEL_MAX as u8
    }
}

/// The shorter side of the image, by which pixel positions are divided so
/// that the scene keeps its proportions at any resolution.
pub fn min_edge(width: u32, height: u32) -> (r: u32)
    ensures
        r == if width <= height { width } else { height },
{
    if width <= height {
        width
    } else {
        height
    }
}

/// The number of pixels of an image.
pub fn pixel_count(width: u32, height: u32) -> (r: u64)
    ensures
        r == width as int * height as int,
{
    proof {
        assert(width as int * height as int <= u32::MAX as int * u32::MAX as int) by (nonlinear_arith);
    }
    width as u64 * height as u64
}

} // verus!
