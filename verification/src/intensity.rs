use vstd::prelude::*;

verus! {

/// The brightest intensity of a pixel.
pub const WHITE: u8 = 255;

/// The level brought into the range of an intensity: levels below zero
/// become black, levels above 255 become white, and the rest stand as they
/// are. Nothing wraps around.
pub open spec fn clamped(level: int) -> int {
    if level < 0 {
        0
    } else if level > 255 {
        255
    } else {
        level
    }
}

/// The intensity of a pixel from its level, which is the noise value scaled
/// to the range from 0 to 255 and rounded towards zero.
pub fn clamp_intensity(level: i64) -> (v: u8)
    ensures
        v == clamped(level as int),
{
    if level < 0 {
        0
    } else if level > 255 {
        WHITE
    } else {
        level as u8
    }
}

} // verus!
