//! Overlay geometry: font size and anchor position derived from the image
//! dimensions alone.
//!
//! The anchor is biased toward the bottom-right corner, inset by a sixth of
//! the width and a sixteenth of the height. For extreme aspect ratios or very
//! small images the text may fall partly outside the image; that is accepted
//! boundary behaviour of these formulas, and the renderer clips such glyphs.

use vstd::prelude::*;

verus! {

/// Divisor of the image width that yields the font size.
pub const FONT_SIZE_FACTOR: u32 = 40;

/// Divisor of the image width that yields the anchor's inset from the right.
pub const WIDTH_POSITION_FACTOR: u32 = 6;

/// Divisor of the image height that yields the anchor's inset from the bottom.
pub const HEIGHT_POSITION_FACTOR: u32 = 16;

/// The font size in pixels for a `width` x `height` image:
/// the width divided by forty, but never more than the height.
pub open spec fn spec_font_size(width: int, height: int) -> int {
    let scaled = width / (FONT_SIZE_FACTOR as int);
    if scaled < height {
        scaled
    } else {
        height
    }
}

/// The overlay anchor for a `width` x `height` image: inset from the
/// bottom-right corner by a sixth of the width and a sixteenth of the height.
pub open spec fn spec_text_position(width: int, height: int) -> (int, int) {
    (
        width - width / (WIDTH_POSITION_FACTOR as int),
        height - height / (HEIGHT_POSITION_FACTOR as int),
    )
}

/// Font size used for the overlay text on an image of the given dimensions.
pub fn calculate_font_size(width: u32, height: u32) -> (size: u32)
    requires
        width >= 1,
        height >= 1,
    ensures
        size == spec_font_size(width as int, height as int),
{
    let scaled = width / FONT_SIZE_FACTOR;
    if scaled < height {
        scaled
    } else {
        height
    }
}

/// Pixel coordinates at which the overlay text is anchored.
pub fn calculate_text_position(width: u32, height: u32) -> (pos: (u32, u32))
    requires
        width >= 1,
        height >= 1,
    ensures
        (pos.0 as int, pos.1 as int) == spec_text_position(width as int, height as int),
        pos.0 <= width,
        pos.1 <= height,
{
    let x = width - width / WIDTH_POSITION_FACTOR;
    let y = height - height / HEIGHT_POSITION_FACTOR;
    (x, y)
}

} // verus!
