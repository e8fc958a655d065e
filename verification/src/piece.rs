use vstd::prelude::*;
use crate::color::Color;

verus! {

/// A chess piece kind, in the fixed ascending index order used throughout the
/// crate (array indexing and the promotion encoding both rely on it).
#[derive(Clone, Copy, Debug, PartialEq, Eq, Structural, Hash)]
pub enum Piece {
    Pawn,
    Knight,
    Bishop,
    Rook,
    Queen,
    King,
}

impl Piece {
    /// The array index of this piece kind: pawn is 0, king is 5.
    pub open spec fn index(self) -> int {
        match self {
            Piece::Pawn => 0,
            Piece::Knight => 1,
            Piece::Bishop => 2,
            Piece::Rook => 3,
            Piece::Queen => 4,
            Piece::King => 5,
        }
    }

    /// The piece kind with the given array index.
    pub open spec fn spec_from_index(i: int) -> Piece {
        if i == 0 {
            Piece::Pawn
        } else if i == 1 {
            Piece::Knight
        } else if i == 2 {
            Piece::Bishop
        } else if i == 3 {
            Piece::Rook
        } else if i == 4 {
            Piece::Queen
        } else {
            Piece::King
        }
    }

    /// The array index of this piece kind: pawn is 0, king is 5.
    pub fn to_index(self) -> (r: usize)
        ensures
            r == self.index(),
    {
        match self {
            Piece::Pawn => 0,
            Piece::Knight => 1,
            Piece::Bishop => 2,
            Piece::Rook => 3,
            Piece::Queen => 4,
            Piece::King => 5,
        }
    }

    /// The piece kind with the given array index.
    pub fn from_index(i: u8) -> (r: Piece)
        requires
            i < 6,
        ensures
            r == Piece::spec_from_index(i as int),
            r.index() == i,
    {
        if i == 0 {
            Piece::Pawn
        } else if i == 1 {
            Piece::Knight
        } else if i == 2 {
            Piece::Bishop
        } else if i == 3 {
            Piece::Rook
        } else if i == 4 {
            Piece::Queen
        } else {
            Piece::King
        }
    }

    /// Convert a piece to a unique uppercase character. This is the same as the
    /// ones used in FENs.
    pub fn to_uppercase_char(self) -> (r: char)
        ensures
            r == self.spec_uppercase_char(),
    {
        match self {
            Piece::Pawn => 'P',
            Piece::Knight => 'N',
            Piece::Bishop => 'B',
            Piece::Rook => 'R',
            Piece::Queen => 'Q',
            Piece::King => 'K',
        }
    }

    /// Convert a piece to a unique lowercase character. This is the same as the
    /// ones used in FENs.
    pub fn to_lowercase_char(self) -> (r: char)
        ensures
            r == self.spec_lowercase_char(),
    {
        match self {
            Piece::Pawn => 'p',
            Piece::Knight => 'n',
            Piece::Bishop => 'b',
            Piece::Rook => 'r',
            Piece::Queen => 'q',
            Piece::King => 'k',
        }
    }

    /// The uppercase notation character of this piece kind.
    pub open spec fn spec_uppercase_char(self) -> char {
        match self {
            Piece::Pawn => 'P',
            Piece::Knight => 'N',
            Piece::Bishop => 'B',
            Piece::Rook => 'R',
            Piece::Queen => 'Q',
            Piece::King => 'K',
        }
    }

    /// The lowercase notation character of this piece kind.
    pub open spec fn spec_lowercase_char(self) -> char {
        match self {
            Piece::Pawn => 'p',
            Piece::Knight => 'n',
            Piece::Bishop => 'b',
            Piece::Rook => 'r',
            Piece::Queen => 'q',
            Piece::King => 'k',
        }
    }

    /// Convert a piece to a unique character: uppercase for white, lowercase
    /// for black. This is the same as the ones used in FENs.
    pub fn to_char(self, color: Color) -> (r: char)
        ensures
            color == Color::White ==> r == self.spec_uppercase_char(),
            color == Color::Black ==> r == self.spec_lowercase_char(),
    {
        match color {
            Color::White => self.to_uppercase_char(),
            Color::Black => self.to_lowercase_char(),
        }
    }
}

} // verus!
