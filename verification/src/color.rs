//! The cell color palette and its fixed cycle order.

use vstd::prelude::*;

verus! {

/// A color a grid cell can be painted with.
///
/// The first six variants form the fixed palette that a cell cycles
/// through. `Other` stands for any further named terminal color: it is a
/// legal cell value and cycles to the first palette entry. `Rgb` is the
/// true-color sentinel: it must never appear as cell content, and every
/// function that writes cells rules it out up front.
#[derive(Clone, Copy, Debug, PartialEq, Eq, Structural)]
pub enum Color {
    DarkGrey,
    DarkRed,
    DarkGreen,
    DarkBlue,
    DarkYellow,
    DarkMagenta,
    Other,
    Rgb { r: u8, g: u8, b: u8 },
}

impl Color {
    /// True of the six colors of the fixed cycle.
    pub open spec fn is_palette(self) -> bool {
        match self {
            Color::DarkGrey => true,
            Color::DarkRed => true,
            Color::DarkGreen => true,
            Color::DarkBlue => true,
            Color::DarkYellow => true,
            Color::DarkMagenta => true,
            Color::Other => false,
            Color::Rgb { .. } => false,
        }
    }

    /// True of the true-color sentinel, which no cell may hold.
    pub open spec fn spec_is_rgb(self) -> bool {
        self matches Color::Rgb { .. }
    }

    #[verifier::when_used_as_spec(spec_is_rgb)]
    pub fn is_rgb(self) -> (r: bool)
        ensures
            r == self.spec_is_rgb(),
    {
        matches!(self, Color::Rgb { .. })
    }
}

/// The next entry of the fixed cycle. A color outside the palette falls
/// back to the first entry; the `Rgb` sentinel never reaches this table
/// (callers rule it out), so its arm is the same fallback.
pub open spec fn next_color_spec(c: Color) -> Color {
    match c {
        Color::DarkGrey => Color::DarkRed,
        Color::DarkRed => Color::DarkGreen,
        Color::DarkGreen => Color::DarkBlue,
        Color::DarkBlue => Color::DarkYellow,
        Color::DarkYellow => Color::DarkMagenta,
        Color::DarkMagenta => Color::DarkGrey,
        Color::Other => Color::DarkGrey,
        Color::Rgb { .. } => Color::DarkGrey,
    }
}

/// Advance a cell color one step along the fixed cycle.
pub fn next_color(c: Color) -> (r: Color)
    requires
        !c.is_rgb(),
    ensures
        r == next_color_spec(c),
{
    match c {
        Color::DarkGrey => Color::DarkRed,
        Color::DarkRed => Color::DarkGreen,
        Color::DarkGreen => Color::DarkBlue,
        Color::DarkBlue => Color::DarkYellow,
        Color::DarkYellow => Color::DarkMagenta,
        Color::DarkMagenta => Color::DarkGrey,
        Color::Other => Color::DarkGrey,
        Color::Rgb { .. } => unreached(),
    }
}

/// The cycle is closed with period exactly six: stepping a palette color
/// six times returns it, and no smaller positive number of steps does.
pub proof fn lemma_cycle_period_six(c: Color)
    requires
        c.is_palette(),
    ensures
        next_color_spec(next_color_spec(next_color_spec(next_color_spec(next_color_spec(
            next_color_spec(c),
        ))))) == c,
        next_color_spec(c) != c,
        next_color_spec(next_color_spec(c)) != c,
        next_color_spec(next_color_spec(next_color_spec(c))) != c,
        next_color_spec(next_color_spec(next_color_spec(next_color_spec(c)))) != c,
        next_color_spec(next_color_spec(next_color_spec(next_color_spec(next_color_spec(c)))))
            != c,
{
}

} // verus!
