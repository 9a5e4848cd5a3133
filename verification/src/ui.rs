//! The two-state UI of the two-button board variant.
//!
//! One boolean remembers which of the two buttons (green or blue) was
//! pressed last. Pressing the other button flips the flag and refreshes
//! both message regions; pressing the same button again leaves the flag
//! alone and refreshes only that button's own region.

use vstd::prelude::*;

verus! {

/// Which message regions a confirmed press asks the loop to redraw.
#[derive(Copy, Clone, PartialEq, Eq, Debug, Structural)]
pub struct Redraw {
    pub green_region: bool,
    pub blue_region: bool,
}

/// UI state: true when the blue button was pressed more recently than the
/// green one. Starts false.
pub struct TwoButtonUi {
    pub last_pressed_blue: bool,
}

impl TwoButtonUi {
    /// Fresh UI state; no blue press has been seen yet.
    pub fn new() -> (ui: TwoButtonUi)
        ensures
            !ui.last_pressed_blue,
    {
        TwoButtonUi { last_pressed_blue: false }
    }

    /// Record one confirmed press; `blue` names the button. Pressing the
    /// button the flag does not name flips the flag and redraws both
    /// regions; a repeat press of the named button keeps the flag and
    /// redraws only its own region.
    pub fn on_press(&mut self, blue: bool) -> (r: Redraw)
        ensures
            final(self).last_pressed_blue == blue,
            old(self).last_pressed_blue != blue ==> final(self).last_pressed_blue == !old(
                self,
            ).last_pressed_blue,
            old(self).last_pressed_blue != blue ==> r == (Redraw {
                green_region: true,
                blue_region: true,
            }),
            old(self).last_pressed_blue == blue ==> r == (Redraw {
                green_region: !blue,
                blue_region: blue,
            }),
    {
        if self.last_pressed_blue != blue {
            self.last_pressed_blue = blue;
            Redraw { green_region: true, blue_region: true }
        } else {
            Redraw { green_region: !blue, blue_region: blue }
        }
    }
}

} // verus!
