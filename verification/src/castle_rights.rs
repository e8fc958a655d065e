use vstd::prelude::*;
use crate::square::File;

verus! {

/// Represents the castling rights of one color: whether each wing is still
/// allowed, and the file of each castling rook.
#[derive(Clone, Copy, Debug, PartialEq, Eq, Structural, Hash)]
pub struct CastleRights(u8);


/// The bit-level facts behind every castle-rights operation: reading and
/// toggling the two permission bits never disturbs the stored rook files.
proof fn bv_cr(x: u8)
    by (bit_vector)
    ensures
        (x >> 5) < 8,
        ((x >> 2) & 7) < 8,
        (x & 3 != 0) == (x & 2 != 0 || x & 1 != 0),
        (x & !2) & 2 == 0,
        ((x & !2) & 1) == (x & 1),
        ((x & !2) >> 5) == (x >> 5),
        (((x & !2) >> 2) & 7) == ((x >> 2) & 7),
        (x & !1) & 1 == 0,
        ((x & !1) & 2) == (x & 2),
        ((x & !1) >> 5) == (x >> 5),
        (((x & !1) >> 2) & 7) == ((x >> 2) & 7),
        (x | 2) & 2 != 0,
        ((x | 2) & 1) == (x & 1),
        ((x | 2) >> 5) == (x >> 5),
        (((x | 2) >> 2) & 7) == ((x >> 2) & 7),
        (x | 1) & 1 != 0,
        ((x | 1) & 2) == (x & 2),
        ((x | 1) >> 5) == (x >> 5),
        (((x | 1) >> 2) & 7) == ((x >> 2) & 7),
        x == 0b11100000u8 ==> x & 2 == 0 && x & 1 == 0 && x >> 5 == 7 && (x >> 2) & 7 == 0,
        x == 0b11100011u8 ==> x & 2 != 0 && x & 1 != 0 && x >> 5 == 7 && (x >> 2) & 7 == 0,
        x == 0u8 ==> x & 2 == 0 && x & 1 == 0,
{
}

impl CastleRights {
    /// Whether castling with the king-side rook is still allowed.
    pub closed spec fn spec_king_side(self) -> bool {
        self.0 & 2 != 0
    }

    /// Whether castling with the queen-side rook is still allowed.
    pub closed spec fn spec_queen_side(self) -> bool {
        self.0 & 1 != 0
    }

    /// The file index of the king-side castling rook.
    pub closed spec fn spec_king_side_file(self) -> int {
        (self.0 >> 5) as int
    }

    /// The file index of the queen-side castling rook.
    pub closed spec fn spec_queen_side_file(self) -> int {
        ((self.0 >> 2) & 7) as int
    }

    /// Get the default castle rights but without any rights: corner rooks
    /// (file A and file H), neither wing allowed.
    pub fn default_no_rights() -> (r: CastleRights)
        ensures
            !r.spec_king_side(),
            !r.spec_queen_side(),
            r.spec_king_side_file() == 7,
            r.spec_queen_side_file() == 0,
    {
        proof {
            bv_cr(0b11100000u8);
        }
        CastleRights(0b11100000)
    }

    /// The default castle rights: corner rooks, both wings allowed.
    pub fn default_rights() -> (r: CastleRights)
        ensures
            r.spec_king_side(),
            r.spec_queen_side(),
            r.spec_king_side_file() == 7,
            r.spec_queen_side_file() == 0,
    {
        proof {
            bv_cr(0b11100011u8);
        }
        CastleRights(0b11100011)
    }

    /// Get the file of the king side rook.
    pub fn king_side_file(self) -> (r: File)
        ensures
            r.index() == self.spec_king_side_file(),
    {
        proof {
            bv_cr(self.0);
        }
        File::from_index(self.0 >> 5)
    }

    /// Get the file of the queen side rook.
    pub fn queen_side_file(self) -> (r: File)
        ensures
            r.index() == self.spec_queen_side_file(),
    {
        proof {
            bv_cr(self.0);
        }
        File::from_index((self.0 >> 2) & 7)
    }

    /// King-side rook have the right to castle if true.
    pub fn king_side(self) -> (r: bool)
        ensures
            r == self.spec_king_side(),
    {
        self.0 & 2 != 0
    }

    /// Queen-side rook have the right to castle if true.
    pub fn queen_side(self) -> (r: bool)
        ensures
            r == self.spec_queen_side(),
    {
        self.0 & 1 != 0
    }

    /// The king is able to castle to either side if true.
    pub fn any_side(self) -> (r: bool)
        ensures
            r == (self.spec_king_side() || self.spec_queen_side()),
    {
        proof {
            bv_cr(self.0);
        }
        self.0 & 3 != 0
    }

    /// Disallow castling to the king-side rook.
    pub fn disallow_king_side(&mut self)
        ensures
            !final(self).spec_king_side(),
            final(self).spec_queen_side() == old(self).spec_queen_side(),
            final(self).spec_king_side_file() == old(self).spec_king_side_file(),
            final(self).spec_queen_side_file() == old(self).spec_queen_side_file(),
    {
        proof {
            bv_cr(self.0);
        }
        self.0 = self.0 & !2;
    }

    /// Disallow castling to the queen-side rook.
    pub fn disallow_queen_side(&mut self)
        ensures
            !final(self).spec_queen_side(),
            final(self).spec_king_side() == old(self).spec_king_side(),
            final(self).spec_king_side_file() == old(self).spec_king_side_file(),
            final(self).spec_queen_side_file() == old(self).spec_queen_side_file(),
    {
        proof {
            bv_cr(self.0);
        }
        self.0 = self.0 & !1;
    }

    /// Disallow castling to any rook. This also resets the stored rook files.
    pub fn disallow_castling(&mut self)
        ensures
            !final(self).spec_king_side(),
            !final(self).spec_queen_side(),
    {
        proof {
            bv_cr(0u8);
        }
        self.0 = 0;
    }

    /// Allow castling to the king-side rook.
    pub fn allow_king_side(&mut self)
        ensures
            final(self).spec_king_side(),
            final(self).spec_queen_side() == old(self).spec_queen_side(),
            final(self).spec_king_side_file() == old(self).spec_king_side_file(),
            final(self).spec_queen_side_file() == old(self).spec_queen_side_file(),
    {
        proof {
            bv_cr(self.0);
        }
        self.0 = self.0 | 2;
    }

    /// Allow castling to the queen-side rook.
    pub fn allow_queen_side(&mut self)
        ensures
            final(self).spec_queen_side(),
            final(self).spec_king_side() == old(self).spec_king_side(),
            final(self).spec_king_side_file() == old(self).spec_king_side_file(),
            final(self).spec_queen_side_file() == old(self).spec_queen_side_file(),
    {
        proof {
            bv_cr(self.0);
        }
        self.0 = self.0 | 1;
    }
}

} // verus!
