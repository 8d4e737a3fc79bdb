//! Theme classification: the ITU-R BT.601 luminance of a color, in
//! thousandths so the weights stay integers, against a fixed threshold.

use vstd::prelude::*;

use crate::types::Rgb;
use crate::types::Theme;

verus! {

/// One thousand times the BT.601 luminance `0.299 R + 0.587 G + 0.114 B`.
pub open spec fn spec_luminance(c: Rgb) -> int {
    299 * c.r + 587 * c.g + 114 * c.b
}

/// Light exactly when the luminance is strictly above 32768; the boundary
/// itself classifies as dark.
pub open spec fn spec_classify(c: Rgb) -> Theme {
    if spec_luminance(c) > 32768000 {
        Theme::Light
    } else {
        Theme::Dark
    }
}

/// Classifies a background color as light or dark. Pure and total.
pub fn classify(c: Rgb) -> (t: Theme)
    ensures
        t == spec_classify(c),
{
    let y: u64 = 299 * (c.r as u64) + 587 * (c.g as u64) + 114 * (c.b as u64);
    if y > 32768000 {
        Theme::Light
    } else {
        Theme::Dark
    }
}

/// Classification is monotonic in luminance: a color at least as luminous
/// as a light one is itself light.
pub proof fn lemma_classify_monotonic(a: Rgb, b: Rgb)
    requires
        spec_luminance(a) <= spec_luminance(b),
        spec_classify(a) == Theme::Light,
    ensures
        spec_classify(b) == Theme::Light,
{
}

} // verus!
