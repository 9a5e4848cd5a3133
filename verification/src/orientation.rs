//! Panel orientation of the Kaluga board's ILI9341, and the mode byte each
//! orientation selects. The panel driver consumes these through its own
//! orientation trait; the adapter that implements that trait lives with the
//! hardware code and forwards to the two methods here.

use vstd::prelude::*;

verus! {

/// Orientations the board's panel supports. The mode byte combines the
/// panel's row/column exchange and mirroring flags.
#[derive(Copy, Clone, PartialEq, Eq, Debug, Structural)]
pub enum KalugaOrientation {
    Portrait,
    PortraitFlipped,
    Landscape,
    LandscapeVericallyFlipped,
    LandscapeFlipped,
}

impl KalugaOrientation {
    /// The memory-access-control byte sent to the panel for this
    /// orientation.
    pub open spec fn spec_mode(self) -> u8 {
        match self {
            KalugaOrientation::Portrait => 0,
            KalugaOrientation::LandscapeVericallyFlipped => 0x20,
            KalugaOrientation::Landscape => 0x60,
            KalugaOrientation::PortraitFlipped => 0xc0,
            KalugaOrientation::LandscapeFlipped => 0xa0,
        }
    }

    /// The memory-access-control byte, computable at run time.
    pub fn mode(&self) -> (m: u8)
        ensures
            m == self.spec_mode(),
    {
        let m: u8 = match self {
            KalugaOrientation::Portrait => 0,
            KalugaOrientation::LandscapeVericallyFlipped => 0x20,
            KalugaOrientation::Landscape => 0x20 | 0x40,
            KalugaOrientation::PortraitFlipped => 0x80 | 0x40,
            KalugaOrientation::LandscapeFlipped => 0x80 | 0x20,
        };
        proof {
            assert(0x20u8 | 0x40u8 == 0x60u8) by (bit_vector);
            assert(0x80u8 | 0x40u8 == 0xc0u8) by (bit_vector);
            assert(0x80u8 | 0x20u8 == 0xa0u8) by (bit_vector);
        }
        m
    }

    /// Whether this orientation swaps the panel's axes.
    pub fn is_landscape(&self) -> (r: bool)
        ensures
            r == (self is Landscape || self is LandscapeFlipped
                || self is LandscapeVericallyFlipped),
    {
        match self {
            KalugaOrientation::Landscape => true,
            KalugaOrientation::LandscapeFlipped => true,
            KalugaOrientation::LandscapeVericallyFlipped => true,
            KalugaOrientation::Portrait => false,
            KalugaOrientation::PortraitFlipped => false,
        }
    }
}

} // verus!
