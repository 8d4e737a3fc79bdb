//! The native console's color table: a console attribute word carries one
//! bit each for a red, green and blue background component and one for
//! intensity; the sixteen combinations map to fixed 8-bit colors, scaled to
//! 16 bits by a factor of 256. The attribute word itself comes from the
//! platform's console query, outside this library.

use vstd::prelude::*;

use crate::types::Rgb;

verus! {

/// The background-red bit of a console attribute word.
pub const BACKGROUND_RED: u16 = 0x40;

/// The background-green bit of a console attribute word.
pub const BACKGROUND_GREEN: u16 = 0x20;

/// The background-blue bit of a console attribute word.
pub const BACKGROUND_BLUE: u16 = 0x10;

/// The background-intensity bit of a console attribute word.
pub const BACKGROUND_INTENSITY: u16 = 0x80;

/// The color a console attribute word denotes.
pub open spec fn spec_console_color(attributes: u16) -> Rgb {
    let r = attributes & BACKGROUND_RED != 0;
    let g = attributes & BACKGROUND_GREEN != 0;
    let b = attributes & BACKGROUND_BLUE != 0;
    let i = attributes & BACKGROUND_INTENSITY != 0;
    match (r, g, b, i) {
        (false, false, false, false) => Rgb { r: 0, g: 0, b: 0 },
        (true, false, false, false) => Rgb { r: 32768, g: 0, b: 0 },
        (false, true, false, false) => Rgb { r: 0, g: 32768, b: 0 },
        (true, true, false, false) => Rgb { r: 32768, g: 32768, b: 0 },
        (false, false, true, false) => Rgb { r: 0, g: 0, b: 32768 },
        (true, false, true, false) => Rgb { r: 32768, g: 0, b: 32768 },
        (false, true, true, false) => Rgb { r: 0, g: 32768, b: 32768 },
        (true, true, true, false) => Rgb { r: 49152, g: 49152, b: 49152 },
        (false, false, false, true) => Rgb { r: 32768, g: 32768, b: 32768 },
        (true, false, false, true) => Rgb { r: 65280, g: 0, b: 0 },
        (false, true, false, true) => Rgb { r: 0, g: 65280, b: 0 },
        (true, true, false, true) => Rgb { r: 65280, g: 65280, b: 0 },
        (false, false, true, true) => Rgb { r: 0, g: 0, b: 65280 },
        (true, false, true, true) => Rgb { r: 65280, g: 0, b: 65280 },
        (false, true, true, true) => Rgb { r: 0, g: 65280, b: 65280 },
        (true, true, true, true) => Rgb { r: 65280, g: 65280, b: 65280 },
    }
}

/// Maps a console attribute word to its background color. Total: every
/// attribute word denotes a color.
pub fn from_winapi(attributes: u16) -> (c: Rgb)
    ensures
        c == spec_console_color(attributes),
{
    let r = attributes & BACKGROUND_RED != 0;
    let g = attributes & BACKGROUND_GREEN != 0;
    let b = attributes & BACKGROUND_BLUE != 0;
    let i = attributes & BACKGROUND_INTENSITY != 0;
    match (r, g, b, i) {
        (false, false, false, false) => Rgb { r: 0, g: 0, b: 0 },
        (true, false, false, false) => Rgb { r: 32768, g: 0, b: 0 },
        (false, true, false, false) => Rgb { r: 0, g: 32768, b: 0 },
        (true, true, false, false) => Rgb { r: 32768, g: 32768, b: 0 },
        (false, false, true, false) => Rgb { r: 0, g: 0, b: 32768 },
        (true, false, true, false) => Rgb { r: 32768, g: 0, b: 32768 },
        (false, true, true, false) => Rgb { r: 0, g: 32768, b: 32768 },
        (true, true, true, false) => Rgb { r: 49152, g: 49152, b: 49152 },
        (false, false, false, true) => Rgb { r: 32768, g: 32768, b: 32768 },
        (true, false, false, true) => Rgb { r: 65280, g: 0, b: 0 },
        (false, true, false, true) => Rgb { r: 0, g: 65280, b: 0 },
        (true, true, false, true) => Rgb { r: 65280, g: 65280, b: 0 },
        (false, false, true, true) => Rgb { r: 0, g: 0, b: 65280 },
        (true, false, true, true) => Rgb { r: 65280, g: 0, b: 65280 },
        (false, true, true, true) => Rgb { r: 0, g: 65280, b: 65280 },
        (true, true, true, true) => Rgb { r: 65280, g: 65280, b: 65280 },
    }
}

} // verus!
