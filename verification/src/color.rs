//! The highlight colour of the dashboard and the order in which it cycles.

use vstd::prelude::*;

verus! {

/// The colours that the profile gauge can be painted in.
#[derive(Clone, Copy, Debug, PartialEq, Eq, Structural)]
pub enum HighlightColor {
    Green,
    Yellow,
    LightBlue,
    LightRed,
}

/// How many colours the cycle holds.
pub const PALETTE_LEN: usize = 4;

impl HighlightColor {
    /// The colour that follows `self` in the cycle
    /// Green, Yellow, LightBlue, LightRed, and Green again.
    pub open spec fn successor(self) -> HighlightColor {
        match self {
            HighlightColor::Green => HighlightColor::Yellow,
            HighlightColor::Yellow => HighlightColor::LightBlue,
            HighlightColor::LightBlue => HighlightColor::LightRed,
            HighlightColor::LightRed => HighlightColor::Green,
        }
    }

    /// The place of a colour in the cycle, counted from Green.
    pub open spec fn rank(self) -> nat {
        match self {
            HighlightColor::Green => 0,
            HighlightColor::Yellow => 1,
            HighlightColor::LightBlue => 2,
            HighlightColor::LightRed => 3,
        }
    }

    /// The colour that starts the cycle.
    pub fn first() -> (c: HighlightColor)
        ensures
            c == HighlightColor::Green,
    {
        HighlightColor::Green
    }

    /// The place of this colour in the palette.
    pub fn index(self) -> (i: usize)
        ensures
            i == self.rank(),
            i < PALETTE_LEN,
    {
        match self {
            HighlightColor::Green => 0,
            HighlightColor::Yellow => 1,
            HighlightColor::LightBlue => 2,
            HighlightColor::LightRed => 3,
        }
    }

    /// The colour at place `i` of the palette, counting round it.
    pub fn from_index(i: usize) -> (c: HighlightColor)
        ensures
            c.rank() == i % PALETTE_LEN,
    {
        let slot: usize = i % PALETTE_LEN;
        if slot == 0 {
            HighlightColor::Green
        } else if slot == 1 {
            HighlightColor::Yellow
        } else if slot == 2 {
            HighlightColor::LightBlue
        } else {
            HighlightColor::LightRed
        }
    }

    /// Advances to the next colour of the cycle: a lookup in the palette
    /// one place further on, wrapping at its end.
    pub fn next(self) -> (c: HighlightColor)
        ensures
            c == self.successor(),
    {
        HighlightColor::from_index(self.index() + 1)
    }
}

/// The successor of a colour stands one place further on in the palette,
/// and the last colour is followed by the first.
pub proof fn lemma_successor_steps_rank(c: HighlightColor)
    ensures
        c.successor().rank() == (c.rank() + 1) % (PALETTE_LEN as nat),
{
}

/// The cycle has length four: four steps from any colour lead back to it,
/// and fewer steps do not.
pub proof fn lemma_cycle_has_length_four(c: HighlightColor)
    ensures
        c.successor().successor().successor().successor() == c,
        c.successor() != c,
        c.successor().successor() != c,
        c.successor().successor().successor() != c,
{
}

} // verus!
