//! Placing the level's picture in the window.

use vstd::prelude::*;

verus! {

/// The offset, along one axis in physical pixels, that centres a viewport of
/// `viewport` pixels in a window of `window` pixels; a viewport larger than
/// the window starts at the window's edge.
pub fn viewport_offset(window: u32, viewport: u32) -> (r: u32)
    ensures
        r == (if window >= viewport { (window - viewport) / 2 } else { 0 }),
{
    window.saturating_sub(viewport) / 2
}

} // verus!
