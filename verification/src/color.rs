use vstd::prelude::*;
use crate::square::Rank;

verus! {

/// One of the two sides of a chess game.
#[derive(Clone, Copy, Debug, PartialEq, Eq, Structural, Hash)]
pub enum Color {
    White,
    Black,
}

impl Color {
    /// The array index this color occupies in per-color tables: white first.
    pub open spec fn index(self) -> int {
        match self {
            Color::White => 0,
            Color::Black => 1,
        }
    }

    /// The opposite side.
    pub open spec fn spec_not(self) -> Color {
        match self {
            Color::White => Color::Black,
            Color::Black => Color::White,
        }
    }

    /// The opposite side.
    pub fn not(self) -> (r: Color)
        ensures
            r == self.spec_not(),
    {
        match self {
            Color::White => Color::Black,
            Color::Black => Color::White,
        }
    }

    /// The array index this color occupies in per-color tables: white first.
    pub fn to_index(self) -> (r: usize)
        ensures
            r == self.index(),
    {
        match self {
            Color::White => 0,
            Color::Black => 1,
        }
    }

    /// Get the back rank of this side.
    pub fn back_rank(self) -> (r: Rank)
        ensures
            r == self.spec_back_rank(),
    {
        match self {
            Color::White => Rank::_1,
            Color::Black => Rank::_8,
        }
    }

    /// The back rank of this side: the first rank for white, the last for black.
    pub open spec fn spec_back_rank(self) -> Rank {
        match self {
            Color::White => Rank::_1,
            Color::Black => Rank::_8,
        }
    }

    /// Map `self` to either `'w'` or `'b'`.
    pub fn to_char(self) -> (r: char)
        ensures
            self == Color::White ==> r == 'w',
            self == Color::Black ==> r == 'b',
    {
        match self {
            Color::White => 'w',
            Color::Black => 'b',
        }
    }
}

} // verus!
