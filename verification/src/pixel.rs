//! Pixels and tolerant pixel comparison.
//!
//! Every detection stage rests on one primitive: two pixels count as "the
//! same color" when each channel differs by at most a tolerance. Background
//! detection uses a tight tolerance; cursor detection uses looser ones
//! because the cursor's anti-aliased edges render less consistently.

use vstd::prelude::*;

verus! {

/// An RGB pixel, one byte per channel.
#[derive(Clone, Copy, PartialEq, Eq, Structural, Debug)]
pub struct Pixel {
    pub r: u8,
    pub g: u8,
    pub b: u8,
}

/// Tolerance for telling the near-black overlay background from map content.
pub const BACKGROUND_TOLERANCE: i32 = 10;

/// Tolerance for telling the cursor blob from surrounding terrain.
pub const CURSOR_LOCATE_TOLERANCE: i32 = 20;

/// Tolerance for following the cursor blob's own color while measuring it.
pub const CURSOR_SIZE_TOLERANCE: i32 = 25;

/// The overlay background: pure black.
pub open spec fn black() -> Pixel {
    Pixel { r: 0, g: 0, b: 0 }
}

/// The overlay background pixel, for executable code.
pub fn black_pixel() -> (p: Pixel)
    ensures
        p == black(),
{
    Pixel { r: 0, g: 0, b: 0 }
}

/// Two channel values lie within `tol` of each other.
pub open spec fn channels_match(a: u8, b: u8, tol: int) -> bool {
    -tol <= a - b <= tol
}

/// Two pixels count as the same color under tolerance `tol`: every channel's
/// signed difference lies in `[-tol, tol]`.
pub open spec fn pixels_match(a: Pixel, b: Pixel, tol: int) -> bool {
    &&& channels_match(a.r, b.r, tol)
    &&& channels_match(a.g, b.g, tol)
    &&& channels_match(a.b, b.b, tol)
}

/// Compare two pixels while ignoring a per-channel difference of at most
/// `accuracy`.
pub fn pixel_are_equals(px1: &Pixel, px2: &Pixel, accuracy: i32) -> (r: bool)
    ensures
        r == pixels_match(*px1, *px2, accuracy as int),
{
    let a = accuracy as i64;
    let dr = px1.r as i64 - px2.r as i64;
    let dg = px1.g as i64 - px2.g as i64;
    let db = px1.b as i64 - px2.b as i64;
    -a <= dr && dr <= a && -a <= dg && dg <= a && -a <= db && db <= a
}

} // verus!
