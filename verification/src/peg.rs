//! The code pegs and the colour wheel they sit on.

use vstd::prelude::*;

verus! {

/// Number of colours on the wheel.
pub const COLOR_COUNT: u8 = 7;

/// Subset of the standard eight ANSI colors.
#[derive(Clone, Copy, Debug, PartialEq, Eq, Hash, Structural)]
pub enum ColorPeg {
    Red,
    Green,
    Yellow,
    Blue,
    Magenta,
    Cyan,
    White,
}

impl ColorPeg {
    /// Position of the colour on the wheel, counted from `Red` downwards.
    pub open spec fn ordinal(self) -> int {
        match self {
            ColorPeg::Red => 0,
            ColorPeg::Green => 1,
            ColorPeg::Yellow => 2,
            ColorPeg::Blue => 3,
            ColorPeg::Magenta => 4,
            ColorPeg::Cyan => 5,
            ColorPeg::White => 6,
        }
    }

    /// The colour at a position of the wheel; positions wrap around.
    pub open spec fn at(position: int) -> ColorPeg {
        let p = position % 7;
        if p == 0 {
            ColorPeg::Red
        } else if p == 1 {
            ColorPeg::Green
        } else if p == 2 {
            ColorPeg::Yellow
        } else if p == 3 {
            ColorPeg::Blue
        } else if p == 4 {
            ColorPeg::Magenta
        } else if p == 5 {
            ColorPeg::Cyan
        } else {
            ColorPeg::White
        }
    }

    /// Position of the colour on the wheel, counted from `Red` downwards.
    pub fn index(self) -> (position: usize)
        ensures
            position == self.ordinal(),
    {
        match self {
            ColorPeg::Red => 0,
            ColorPeg::Green => 1,
            ColorPeg::Yellow => 2,
            ColorPeg::Blue => 3,
            ColorPeg::Magenta => 4,
            ColorPeg::Cyan => 5,
            ColorPeg::White => 6,
        }
    }

    /// The colour at a position of the wheel.
    pub fn from_index(position: u8) -> (peg: ColorPeg)
        requires
            position < COLOR_COUNT,
        ensures
            peg == ColorPeg::at(position as int),
            peg.ordinal() == position,
    {
        match position {
            0 => ColorPeg::Red,
            1 => ColorPeg::Green,
            2 => ColorPeg::Yellow,
            3 => ColorPeg::Blue,
            4 => ColorPeg::Magenta,
            5 => ColorPeg::Cyan,
            _ => ColorPeg::White,
        }
    }

    /// Shifts color peg down wheel.
    #[must_use]
    pub fn down(&self) -> (next: ColorPeg)
        ensures
            next == ColorPeg::at(self.ordinal() + 1),
    {
        match self {
            Self::Red => ColorPeg::Green,
            Self::Green => ColorPeg::Yellow,
            Self::Yellow => ColorPeg::Blue,
            Self::Blue => ColorPeg::Magenta,
            Self::Magenta => ColorPeg::Cyan,
            Self::Cyan => ColorPeg::White,
            Self::White => ColorPeg::Red,
        }
    }

    /// Shifts color peg up wheel.
    #[must_use]
    pub fn up(&self) -> (previous: ColorPeg)
        ensures
            previous == ColorPeg::at(self.ordinal() - 1),
    {
        match self {
            Self::Red => ColorPeg::White,
            Self::Green => ColorPeg::Red,
            Self::Yellow => ColorPeg::Green,
            Self::Blue => ColorPeg::Yellow,
            Self::Magenta => ColorPeg::Blue,
            Self::Cyan => ColorPeg::Magenta,
            Self::White => ColorPeg::Cyan,
        }
    }
}

/// Every colour has its own position on the wheel, and the wheel has seven.
pub proof fn lemma_wheel_positions(peg: ColorPeg)
    ensures
        0 <= peg.ordinal() < COLOR_COUNT,
        ColorPeg::at(peg.ordinal()) == peg,
{
}

/// A step down the wheel and a step up cancel each other, in either order.
pub proof fn lemma_up_undoes_down(peg: ColorPeg)
    ensures
        ColorPeg::at(ColorPeg::at(peg.ordinal() + 1).ordinal() - 1) == peg,
        ColorPeg::at(ColorPeg::at(peg.ordinal() - 1).ordinal() + 1) == peg,
{
}

/// Seven steps in one direction lead around the wheel and back.
pub proof fn lemma_wheel_closes(peg: ColorPeg)
    ensures
        ColorPeg::at(peg.ordinal() + 7) == peg,
        ColorPeg::at(peg.ordinal() - 7) == peg,
{
}

} // verus!
