use vstd::prelude::*;
use crate::bitboard::{bb_has, Bitboard};
use crate::color::Color;
use crate::generator::add_target;
use crate::square::Square;
use crate::tables::{pawn_adv_target, pawn_cap_attacks};

verus! {

/// Build the pawn advance tables by direct enumeration: one step forward,
/// and a second from each side's starting pawn rank.
#[verifier::rlimit(100)]
pub fn generate_advances() -> (r: [[Bitboard; 64]; 2])
    ensures
        forall|c: int, s: int, j: int|
            0 <= c < 2 && 0 <= s < 64 ==> (#[trigger] bb_has(r@[c]@[s].0, j) <==> pawn_adv_target(
                c,
                s,
                j,
            )),
{
    let mut table = [[Bitboard(0); 64]; 2];
    let mut c: usize = 0;
    while c < 2
        invariant
            c <= 2,
            forall|cc: int, s: int, j: int|
                0 <= cc < c && 0 <= s < 64 ==> (#[trigger] bb_has(table@[cc]@[s].0, j)
                    <==> pawn_adv_target(cc, s, j)),
        decreases 2 - c,
    {
        let color = if c == 0 {
            Color::White
        } else {
            Color::Black
        };
        let mut per = [Bitboard(0); 64];
        let mut s: usize = 0;
        while s < 64
            invariant
                s <= 64,
                c < 2,
                color == (if c == 0 { Color::White } else { Color::Black }),
                forall|q: int, j: int|
                    0 <= q < s ==> (#[trigger] bb_has(per@[q].0, j) <==> pawn_adv_target(
                        c as int,
                        q,
                        j,
                    )),
            decreases 64 - s,
        {
            let sq = Square::from_index(s as u8);
            let file = sq.file();
            let rank = sq.rank();
            let mut bb: u64 = 0;
            proof {
                crate::board::lemma_bb_ops(0, 0);
            }
            bb = add_target(bb, Some(file), rank.forward(color, 1));
            let start: u8 = if c == 0 {
                1
            } else {
                6
            };
            if rank.to_index() == start {
                bb = add_target(bb, Some(file), rank.forward(color, 2));
            }
            proof {
                assert forall|j: int| #[trigger]
                    bb_has(bb, j) <==> pawn_adv_target(c as int, s as int, j) by {}
            }
            per[s] = Bitboard(bb);
            s = s + 1;
        }
        table[c] = per;
        c = c + 1;
    }
    table
}

/// Build the pawn capture tables by direct enumeration: the two diagonal
/// squares one rank forward.
#[verifier::rlimit(100)]
pub fn generate_captures() -> (r: [[Bitboard; 64]; 2])
    ensures
        forall|c: int, s: int, j: int|
            0 <= c < 2 && 0 <= s < 64 ==> (#[trigger] bb_has(r@[c]@[s].0, j) <==> pawn_cap_attacks(
                c,
                s,
                j,
            )),
{
    let mut table = [[Bitboard(0); 64]; 2];
    let mut c: usize = 0;
    while c < 2
        invariant
            c <= 2,
            forall|cc: int, s: int, j: int|
                0 <= cc < c && 0 <= s < 64 ==> (#[trigger] bb_has(table@[cc]@[s].0, j)
                    <==> pawn_cap_attacks(cc, s, j)),
        decreases 2 - c,
    {
        let color = if c == 0 {
            Color::White
        } else {
            Color::Black
        };
        let mut per = [Bitboard(0); 64];
        let mut s: usize = 0;
        while s < 64
            invariant
                s <= 64,
                c < 2,
                color == (if c == 0 { Color::White } else { Color::Black }),
                forall|q: int, j: int|
                    0 <= q < s ==> (#[trigger] bb_has(per@[q].0, j) <==> pawn_cap_attacks(
                        c as int,
                        q,
                        j,
                    )),
            decreases 64 - s,
        {
            let sq = Square::from_index(s as u8);
            let file = sq.file();
            let rank = sq.rank();
            let mut bb: u64 = 0;
            proof {
                crate::board::lemma_bb_ops(0, 0);
            }
            bb = add_target(bb, file.left(1), rank.forward(color, 1));
            bb = add_target(bb, file.right(1), rank.forward(color, 1));
            proof {
                assert forall|j: int| #[trigger]
                    bb_has(bb, j) <==> pawn_cap_attacks(c as int, s as int, j) by {}
            }
            per[s] = Bitboard(bb);
            s = s + 1;
        }
        table[c] = per;
        c = c + 1;
    }
    table
}

/// Build both pawn tables.
pub fn generate_moves() -> (r: ([[Bitboard; 64]; 2], [[Bitboard; 64]; 2]))
    ensures
        forall|c: int, s: int, j: int|
            0 <= c < 2 && 0 <= s < 64 ==> (#[trigger] bb_has(r.0@[c]@[s].0, j) <==> pawn_adv_target(
                c,
                s,
                j,
            )),
        forall|c: int, s: int, j: int|
            0 <= c < 2 && 0 <= s < 64 ==> (#[trigger] bb_has(r.1@[c]@[s].0, j)
                <==> pawn_cap_attacks(c, s, j)),
{
    (generate_advances(), generate_captures())
}

} // verus!
