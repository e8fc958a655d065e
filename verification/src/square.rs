use vstd::prelude::*;
use crate::color::Color;

verus! {

/// A square on the board, stored as an index `rank * 8 + file` in `0..64`.
#[derive(Clone, Copy, Debug, PartialEq, Eq, Structural, Hash)]
pub struct Square(u8);

/// A file (or column).
#[derive(Clone, Copy, Debug, PartialEq, Eq, Structural, Hash, PartialOrd, Ord)]
pub enum File {
    A,
    B,
    C,
    D,
    E,
    F,
    G,
    H,
}

/// A rank (or row).
#[derive(Clone, Copy, Debug, PartialEq, Eq, Structural, Hash, PartialOrd, Ord)]
pub enum Rank {
    _1,
    _2,
    _3,
    _4,
    _5,
    _6,
    _7,
    _8,
}

impl File {
    /// The 0-based index of this file: file A is 0, file H is 7.
    pub open spec fn index(self) -> int {
        match self {
            File::A => 0,
            File::B => 1,
            File::C => 2,
            File::D => 3,
            File::E => 4,
            File::F => 5,
            File::G => 6,
            File::H => 7,
        }
    }

    /// The file with the given 0-based index.
    pub open spec fn spec_from_index(i: int) -> File {
        if i == 0 {
            File::A
        } else if i == 1 {
            File::B
        } else if i == 2 {
            File::C
        } else if i == 3 {
            File::D
        } else if i == 4 {
            File::E
        } else if i == 5 {
            File::F
        } else if i == 6 {
            File::G
        } else {
            File::H
        }
    }

    /// The 0-based index of this file: file A is 0, file H is 7.
    pub fn to_index(self) -> (r: u8)
        ensures
            r == self.index(),
    {
        match self {
            File::A => 0,
            File::B => 1,
            File::C => 2,
            File::D => 3,
            File::E => 4,
            File::F => 5,
            File::G => 6,
            File::H => 7,
        }
    }

    /// The file with the given 0-based index.
    pub fn from_index(i: u8) -> (r: File)
        requires
            i < 8,
        ensures
            r == File::spec_from_index(i as int),
            r.index() == i,
    {
        if i == 0 {
            File::A
        } else if i == 1 {
            File::B
        } else if i == 2 {
            File::C
        } else if i == 3 {
            File::D
        } else if i == 4 {
            File::E
        } else if i == 5 {
            File::F
        } else if i == 6 {
            File::G
        } else {
            File::H
        }
    }

    /// Get the file `n` files to the right, wrapping around if it will
    /// overflow.
    pub fn right_wrap(self, n: usize) -> (r: File)
        requires
            n <= usize::MAX - 8,
        ensures
            r.index() == (self.index() + n) % 8,
    {
        let i: usize = (self.to_index() as usize + n) % 8;
        File::from_index(i as u8)
    }

    /// Get the file `n` files to the right, or nothing past the board edge.
    pub fn right(self, n: usize) -> (r: Option<File>)
        requires
            n <= usize::MAX - 8,
        ensures
            self.index() + n < 8 ==> r == Some(File::spec_from_index(self.index() + n)),
            self.index() + n >= 8 ==> r is None,
    {
        let idx: usize = self.to_index() as usize + n;
        if idx >= 8 {
            return None;
        }
        Some(File::from_index(idx as u8))
    }

    /// Get the file `n` files to the left, wrapping around if it will
    /// underflow.
    pub fn left_wrap(self, n: usize) -> (r: File)
        ensures
            r.index() == (self.index() + 8 - (n % 8)) % 8,
    {
        let i: usize = (self.to_index() as usize + 8 - n % 8) % 8;
        File::from_index(i as u8)
    }

    /// Get the file `n` files to the left, or nothing past the board edge.
    pub fn left(self, n: usize) -> (r: Option<File>)
        ensures
            self.index() - n >= 0 ==> r == Some(File::spec_from_index(self.index() - n)),
            self.index() - n < 0 ==> r is None,
    {
        let i: usize = self.to_index() as usize;
        if i < n {
            return None;
        }
        Some(File::from_index((i - n) as u8))
    }
}

impl Rank {
    /// The 0-based index of this rank: rank 1 is 0, rank 8 is 7.
    pub open spec fn index(self) -> int {
        match self {
            Rank::_1 => 0,
            Rank::_2 => 1,
            Rank::_3 => 2,
            Rank::_4 => 3,
            Rank::_5 => 4,
            Rank::_6 => 5,
            Rank::_7 => 6,
            Rank::_8 => 7,
        }
    }

    /// The rank with the given 0-based index.
    pub open spec fn spec_from_index(i: int) -> Rank {
        if i == 0 {
            Rank::_1
        } else if i == 1 {
            Rank::_2
        } else if i == 2 {
            Rank::_3
        } else if i == 3 {
            Rank::_4
        } else if i == 4 {
            Rank::_5
        } else if i == 5 {
            Rank::_6
        } else if i == 6 {
            Rank::_7
        } else {
            Rank::_8
        }
    }

    /// The 0-based index of this rank: rank 1 is 0, rank 8 is 7.
    pub fn to_index(self) -> (r: u8)
        ensures
            r == self.index(),
    {
        match self {
            Rank::_1 => 0,
            Rank::_2 => 1,
            Rank::_3 => 2,
            Rank::_4 => 3,
            Rank::_5 => 4,
            Rank::_6 => 5,
            Rank::_7 => 6,
            Rank::_8 => 7,
        }
    }

    /// The rank with the given 0-based index.
    pub fn from_index(i: u8) -> (r: Rank)
        requires
            i < 8,
        ensures
            r == Rank::spec_from_index(i as int),
            r.index() == i,
    {
        if i == 0 {
            Rank::_1
        } else if i == 1 {
            Rank::_2
        } else if i == 2 {
            Rank::_3
        } else if i == 3 {
            Rank::_4
        } else if i == 4 {
            Rank::_5
        } else if i == 5 {
            Rank::_6
        } else if i == 6 {
            Rank::_7
        } else {
            Rank::_8
        }
    }

    /// Calls [`Self::invert`] if `color` is black, otherwise returns `self`.
    pub fn invert_if_black(self, color: Color) -> (r: Rank)
        ensures
            color == Color::White ==> r == self,
            color == Color::Black ==> r.index() == 7 - self.index(),
    {
        match color {
            Color::White => self,
            Color::Black => self.invert(),
        }
    }

    /// Invert the rank: rank 1 becomes rank 8 and so on.
    pub fn invert(self) -> (r: Rank)
        ensures
            r.index() == 7 - self.index(),
    {
        Rank::from_index(7 - self.to_index())
    }

    /// Get the rank `n` ranks up, wrapping around if it will overflow.
    pub fn up_wrap(self, n: usize) -> (r: Rank)
        requires
            n <= usize::MAX - 8,
        ensures
            r.index() == (self.index() + n) % 8,
    {
        let i: usize = (self.to_index() as usize + n) % 8;
        Rank::from_index(i as u8)
    }

    /// Get the rank `n` ranks up, or nothing past the board edge.
    pub fn up(self, n: usize) -> (r: Option<Rank>)
        requires
            n <= usize::MAX - 8,
        ensures
            self.index() + n < 8 ==> r == Some(Rank::spec_from_index(self.index() + n)),
            self.index() + n >= 8 ==> r is None,
    {
        let idx: usize = self.to_index() as usize + n;
        if idx >= 8 {
            return None;
        }
        Some(Rank::from_index(idx as u8))
    }

    /// Get the rank `n` ranks down, wrapping around if it will underflow.
    pub fn down_wrap(self, n: usize) -> (r: Rank)
        ensures
            r.index() == (self.index() + 8 - (n % 8)) % 8,
    {
        let i: usize = (self.to_index() as usize + 8 - n % 8) % 8;
        Rank::from_index(i as u8)
    }

    /// Get the rank `n` ranks down, or nothing past the board edge.
    pub fn down(self, n: usize) -> (r: Option<Rank>)
        ensures
            self.index() - n >= 0 ==> r == Some(Rank::spec_from_index(self.index() - n)),
            self.index() - n < 0 ==> r is None,
    {
        let i: usize = self.to_index() as usize;
        if i < n {
            return None;
        }
        Some(Rank::from_index((i - n) as u8))
    }

    /// Get the rank forward from this color's point of view, wrapping around
    /// if overflowed.
    pub fn forward_wrap(self, color: Color, n: usize) -> (r: Rank)
        requires
            n <= usize::MAX - 8,
        ensures
            color == Color::White ==> r.index() == (self.index() + n) % 8,
            color == Color::Black ==> r.index() == (self.index() + 8 - (n % 8)) % 8,
    {
        match color {
            Color::White => self.up_wrap(n),
            Color::Black => self.down_wrap(n),
        }
    }

    /// Get the rank forward from this color's point of view.
    pub fn forward(self, color: Color, n: usize) -> (r: Option<Rank>)
        requires
            n <= usize::MAX - 8,
        ensures
            color == Color::White && self.index() + n < 8 ==> r == Some(
                Rank::spec_from_index(self.index() + n),
            ),
            color == Color::White && self.index() + n >= 8 ==> r is None,
            color == Color::Black && self.index() - n >= 0 ==> r == Some(
                Rank::spec_from_index(self.index() - n),
            ),
            color == Color::Black && self.index() - n < 0 ==> r is None,
    {
        match color {
            Color::White => self.up(n),
            Color::Black => self.down(n),
        }
    }

    /// Get the rank backward from this color's point of view, wrapping around
    /// if overflowed.
    pub fn backward_wrap(self, color: Color, n: usize) -> (r: Rank)
        requires
            n <= usize::MAX - 8,
        ensures
            color == Color::White ==> r.index() == (self.index() + 8 - (n % 8)) % 8,
            color == Color::Black ==> r.index() == (self.index() + n) % 8,
    {
        match color {
            Color::White => self.down_wrap(n),
            Color::Black => self.up_wrap(n),
        }
    }

    /// Get the rank backward from this color's point of view.
    pub fn backward(self, color: Color, n: usize) -> (r: Option<Rank>)
        requires
            n <= usize::MAX - 8,
        ensures
            color == Color::White && self.index() - n >= 0 ==> r == Some(
                Rank::spec_from_index(self.index() - n),
            ),
            color == Color::White && self.index() - n < 0 ==> r is None,
            color == Color::Black && self.index() + n < 8 ==> r == Some(
                Rank::spec_from_index(self.index() + n),
            ),
            color == Color::Black && self.index() + n >= 8 ==> r is None,
    {
        match color {
            Color::White => self.down(n),
            Color::Black => self.up(n),
        }
    }
}

impl Square {
    /// The invariant of every square value: its index stays on the board.
    #[verifier::type_invariant]
    spec fn inv(self) -> bool {
        self.0 < 64
    }

    /// The index of this square in `0..64`, file-major within a rank, ranks
    /// ascending.
    pub closed spec fn index(self) -> int {
        self.0 as int
    }

    /// The 0-based file coordinate of this square.
    pub open spec fn file_index(self) -> int {
        self.index() % 8
    }

    /// The 0-based rank coordinate of this square.
    pub open spec fn rank_index(self) -> int {
        self.index() / 8
    }

    /// Make a new square from a file and rank.
    pub fn new(file: File, rank: Rank) -> (r: Square)
        ensures
            r.index() == rank.index() * 8 + file.index(),
    {
        Square(rank.to_index() * 8 + file.to_index())
    }

    /// Make a new square from an index in `0..64`.
    pub fn from_index(idx: u8) -> (r: Square)
        requires
            idx < 64,
        ensures
            r.index() == idx,
    {
        Square(idx)
    }

    /// Get the square in the point of view of the given color: unchanged for
    /// white, rank-mirrored for black.
    pub fn pov(self, color: Color) -> (r: Square)
        ensures
            color == Color::White ==> r == self,
            color == Color::Black ==> r.file_index() == self.file_index() && r.rank_index() == 7
                - self.rank_index(),
    {
        match color {
            Color::White => self,
            Color::Black => self.black_pov(),
        }
    }

    /// Get the square in the point of view of black: the file is kept and the
    /// rank is mirrored.
    pub fn black_pov(self) -> (r: Square)
        ensures
            r.file_index() == self.file_index(),
            r.rank_index() == 7 - self.rank_index(),
    {
        proof {
            use_type_invariant(self);
        }
        let v = self.0 ^ 0b111_000;
        proof {
            let s = self.0;
            assert(s < 64 ==> (s ^ 0b111_000) < 64 && ((s ^ 0b111_000) % 8) == s % 8 && ((s
                ^ 0b111_000) / 8) == 7 - s / 8) by (bit_vector);
        }
        Square(v)
    }

    /// Converts this square to a `u8` index in `0..64`.
    pub fn to_u8(self) -> (r: u8)
        ensures
            r == self.index(),
            r < 64,
    {
        proof {
            use_type_invariant(self);
        }
        self.0
    }

    /// Converts this square to a `usize` index in `0..64`.
    pub fn to_usize(self) -> (r: usize)
        ensures
            r == self.index(),
            r < 64,
    {
        proof {
            use_type_invariant(self);
        }
        self.0 as usize
    }

    /// The file of this square.
    pub fn file(self) -> (r: File)
        ensures
            r.index() == self.file_index(),
    {
        proof {
            use_type_invariant(self);
        }
        File::from_index(self.0 % 8)
    }

    /// The rank of this square.
    pub fn rank(self) -> (r: Rank)
        ensures
            r.index() == self.rank_index(),
    {
        proof {
            use_type_invariant(self);
        }
        Rank::from_index(self.0 / 8)
    }
}

} // verus!
