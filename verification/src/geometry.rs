//! Placement of the status label on the panel.
//!
//! The loop draws each label at the display's centre pushed left to ten
//! pixels from the edge. The centre of a `w x h` box anchored at the origin
//! is `((w - 1) / 2, (h - 1) / 2)` (rounded down, as the graphics library
//! computes it), and the label is then shifted left by `w / 2 - 10` pixels.

use vstd::prelude::*;

verus! {

/// Top-left origin of the status label for a display of the given size.
pub fn label_origin(width: u32, height: u32) -> (p: (i32, i32))
    requires
        20 <= width <= i32::MAX as u32,
        1 <= height <= i32::MAX as u32,
    ensures
        p.0 == (width - 1) as int / 2 - ((width as int) / 2 - 10),
        p.1 == (height - 1) as int / 2,
{
    let cx: u32 = (width - 1) / 2;
    let cy: u32 = (height - 1) / 2;
    let shift: u32 = width / 2 - 10;
    (cx as i32 - shift as i32, cy as i32)
}

} // verus!
