use vstd::prelude::*;
use crate::piece::Piece;
use crate::square::Square;

verus! {

/// A chess move packed into one non-zero 16-bit word.
///
/// Bits `0..=5` are the source square, bits `6..=11` the destination square,
/// and bits `12..=15` the promotion piece index, where 0 (the pawn index)
/// doubles as "no promotion". The all-zero pattern (`A1` to `A1`, no
/// promotion) is reserved as unrepresentable, so an optional move costs no
/// extra memory.
#[derive(Clone, Copy, Debug, PartialEq, Eq, Structural, Hash)]
pub struct Move(u16);

/// Bit-level facts about packing and unpacking a move word.
proof fn bv_mv(f: u16, t: u16, p: u16, v: u16)
    by (bit_vector)
    ensures
        f < 64 && t < 64 ==> ((p << 12u16) | (t << 6u16) | f) & 63 == f,
        f < 64 && t < 64 ==> (((p << 12u16) | (t << 6u16) | f) >> 6u16) & 63 == t,
        f < 64 && t < 64 && p < 6 ==> ((p << 12u16) | (t << 6u16) | f) >> 12u16 == p,
        (f != 0 || t != 0 || p != 0) && f < 64 && t < 64 && p < 6 ==> ((p << 12u16) | (t << 6u16)
            | f) != 0,
        v & 63 < 64,
        (v >> 6u16) & 63 < 64,
{
}

impl Move {
    /// The invariant of every move value: the word is non-zero and its
    /// promotion field is a valid piece index.
    #[verifier::type_invariant]
    spec fn inv(self) -> bool {
        self.0 != 0 && (self.0 >> 12u16) < 6
    }

    /// The index of the source square.
    pub closed spec fn spec_from(self) -> int {
        (self.0 & 63) as int
    }

    /// The index of the destination square.
    pub closed spec fn spec_to(self) -> int {
        ((self.0 >> 6u16) & 63) as int
    }

    /// The promotion piece, if any. The pawn index encodes "no promotion".
    pub closed spec fn spec_promotion(self) -> Option<Piece> {
        if self.0 >> 12u16 == 0 {
            None
        } else {
            Some(Piece::spec_from_index((self.0 >> 12u16) as int))
        }
    }

    /// Create a new move.
    ///
    /// A pawn promotion is recorded as no promotion, since a pawn can never
    /// legally be a promotion target. The reserved pattern — `A1` to `A1`
    /// without an effective promotion — cannot be represented and is ruled
    /// out by the precondition.
    pub fn new(from: Square, to: Square, promotion: Option<Piece>) -> (r: Move)
        requires
            !(from.index() == 0 && to.index() == 0 && (promotion is None || promotion == Some(
                Piece::Pawn,
            ))),
        ensures
            r.spec_from() == from.index(),
            r.spec_to() == to.index(),
            r.spec_promotion() == (match promotion {
                Some(p) => if p == Piece::Pawn {
                    None
                } else {
                    Some(p)
                },
                None => None,
            }),
    {
        let p = match promotion {
            Some(p) => p,
            None => Piece::Pawn,
        };
        let pf = p.to_index() as u16;
        let tf = to.to_u8() as u16;
        let ff = from.to_u8() as u16;
        let val: u16 = (pf << 12u16) | (tf << 6u16) | ff;
        proof {
            bv_mv(ff, tf, pf, val);
        }
        Move(val)
    }

    /// The source square of this move.
    pub fn from(&self) -> (r: Square)
        ensures
            r.index() == self.spec_from(),
    {
        proof {
            bv_mv(0, 0, 0, self.0);
        }
        Square::from_index((self.0 & 63) as u8)
    }

    /// The destination square of this move.
    pub fn to(&self) -> (r: Square)
        ensures
            r.index() == self.spec_to(),
    {
        proof {
            bv_mv(0, 0, 0, self.0);
        }
        Square::from_index(((self.0 >> 6u16) & 63) as u8)
    }

    /// The promotion piece of this move, if any.
    pub fn promotion(&self) -> (r: Option<Piece>)
        ensures
            r == self.spec_promotion(),
    {
        proof {
            use_type_invariant(self);
        }
        let idx = self.0 >> 12u16;
        if idx != 0 {
            Some(Piece::from_index(idx as u8))
        } else {
            None
        }
    }
}

} // verus!
