use vstd::prelude::*;
use crate::bitboard::{bb_has, Bitboard};
use crate::generator::{add_target, file_span};
use crate::square::Square;
use crate::tables::{castle_clearance_has, castle_path_has, king_attacks};

verus! {

/// Build the king move table by direct enumeration of the eight adjacent
/// squares.
#[verifier::rlimit(100)]
pub fn generate_moves() -> (r: [Bitboard; 64])
    ensures
        forall|s: int, j: int|
            0 <= s < 64 ==> (#[trigger] bb_has(r@[s].0, j) <==> king_attacks(s, j)),
{
    let mut table = [Bitboard(0); 64];
    let mut s: usize = 0;
    while s < 64
        invariant
            s <= 64,
            forall|q: int, j: int|
                0 <= q < s ==> (#[trigger] bb_has(table@[q].0, j) <==> king_attacks(q, j)),
        decreases 64 - s,
    {
        let sq = Square::from_index(s as u8);
        let file = sq.file();
        let rank = sq.rank();
        let mut bb: u64 = 0;
        proof {
            crate::board::lemma_bb_ops(0, 0);
        }
        bb = add_target(bb, file.left(1), rank.up(1));
        bb = add_target(bb, Some(file), rank.up(1));
        bb = add_target(bb, file.right(1), rank.up(1));
        bb = add_target(bb, file.left(1), Some(rank));
        bb = add_target(bb, file.right(1), Some(rank));
        bb = add_target(bb, file.left(1), rank.down(1));
        bb = add_target(bb, Some(file), rank.down(1));
        bb = add_target(bb, file.right(1), rank.down(1));
        proof {
            assert forall|j: int| #[trigger] bb_has(bb, j) <==> king_attacks(s as int, j) by {}
        }
        table[s] = Bitboard(bb);
        s = s + 1;
    }
    table
}

/// Build the castling path tables: for each color, king file and wing, the
/// back-rank squares the king must have safe, and the squares that must be
/// empty.
pub fn generate_castle_paths() -> (r: ([[[Bitboard; 2]; 8]; 2], [[[Bitboard; 2]; 8]; 2]))
    ensures
        forall|c: int, kf: int, side: int, j: int|
            0 <= c < 2 && 0 <= kf < 8 && 0 <= side < 2 ==> (#[trigger] bb_has(
                r.0@[c]@[kf]@[side].0,
                j,
            ) <==> castle_path_has(c, kf, side, j)),
        forall|c: int, kf: int, side: int, j: int|
            0 <= c < 2 && 0 <= kf < 8 && 0 <= side < 2 ==> (#[trigger] bb_has(
                r.1@[c]@[kf]@[side].0,
                j,
            ) <==> castle_clearance_has(c, kf, side, j)),
{
    let mut path = [[[Bitboard(0); 2]; 8]; 2];
    let mut clearance = [[[Bitboard(0); 2]; 8]; 2];
    let mut c: usize = 0;
    while c < 2
        invariant
            c <= 2,
            forall|cc: int, kf: int, side: int, j: int|
                0 <= cc < c && 0 <= kf < 8 && 0 <= side < 2 ==> (#[trigger] bb_has(
                    path@[cc]@[kf]@[side].0,
                    j,
                ) <==> castle_path_has(cc, kf, side, j)),
            forall|cc: int, kf: int, side: int, j: int|
                0 <= cc < c && 0 <= kf < 8 && 0 <= side < 2 ==> (#[trigger] bb_has(
                    clearance@[cc]@[kf]@[side].0,
                    j,
                ) <==> castle_clearance_has(cc, kf, side, j)),
        decreases 2 - c,
    {
        let br: u8 = if c == 0 {
            0
        } else {
            7
        };
        let mut path_c = [[Bitboard(0); 2]; 8];
        let mut clear_c = [[Bitboard(0); 2]; 8];
        let mut kf: usize = 0;
        while kf < 8
            invariant
                kf <= 8,
                c < 2,
                br == (if c == 0 { 0u8 } else { 7u8 }),
                forall|k2: int, side: int, j: int|
                    0 <= k2 < kf && 0 <= side < 2 ==> (#[trigger] bb_has(path_c@[k2]@[side].0, j)
                        <==> castle_path_has(c as int, k2, side, j)),
                forall|k2: int, side: int, j: int|
                    0 <= k2 < kf && 0 <= side < 2 ==> (#[trigger] bb_has(clear_c@[k2]@[side].0, j)
                        <==> castle_clearance_has(c as int, k2, side, j)),
            decreases 8 - kf,
        {
            let mut pair_p = [Bitboard(0); 2];
            let mut pair_c = [Bitboard(0); 2];
            let mut side: usize = 0;
            while side < 2
                invariant
                    side <= 2,
                    c < 2,
                    kf < 8,
                    br == (if c == 0 { 0u8 } else { 7u8 }),
                    forall|s2: int, j: int|
                        0 <= s2 < side ==> (#[trigger] bb_has(pair_p@[s2].0, j) <==> castle_path_has(
                            c as int,
                            kf as int,
                            s2,
                            j,
                        )),
                    forall|s2: int, j: int|
                        0 <= s2 < side ==> (#[trigger] bb_has(pair_c@[s2].0, j)
                            <==> castle_clearance_has(c as int, kf as int, s2, j)),
                decreases 2 - side,
            {
                let cs: u8 = if side == 0 {
                    6
                } else {
                    2
                };
                let p: u64;
                let cl: u64;
                if kf as u8 > cs {
                    p = file_span(br, 2, kf as u8);
                    cl = file_span(br, 1, (kf as u8) - 1);
                } else {
                    p = file_span(br, kf as u8, cs);
                    cl = file_span(br, (kf as u8) + 1, cs);
                }
                pair_p[side] = Bitboard(p);
                pair_c[side] = Bitboard(cl);
                side = side + 1;
            }
            path_c[kf] = pair_p;
            clear_c[kf] = pair_c;
            kf = kf + 1;
        }
        path[c] = path_c;
        clearance[c] = clear_c;
        c = c + 1;
    }
    (path, clearance)
}

/// The six squares a standard castling king move touches: files C, E and G
/// on both back ranks, used to detect castling in move application.
pub fn generate_castle_moves() -> (r: Bitboard)
    ensures
        forall|j: int| #[trigger] bb_has(r.0, j) <==> crate::board::in_castle_zone(j),
{
    let mut bb: u64 = 0;
    proof {
        crate::board::lemma_bb_ops(0, 0);
    }
    let mut c: usize = 0;
    while c < 2
        invariant
            c <= 2,
            forall|j: int|
                #[trigger] bb_has(bb, j) <==> ((c >= 1 && (j == 2 || j == 4 || j == 6)) || (c >= 2
                    && (j == 58 || j == 60 || j == 62))),
        decreases 2 - c,
    {
        let br: u8 = if c == 0 {
            0
        } else {
            7
        };
        let r1 = file_span(br, 2, 2);
        let r2 = file_span(br, 4, 4);
        let r3 = file_span(br, 6, 6);
        proof {
            crate::board::lemma_bb_ops(bb, r1);
            crate::board::lemma_bb_ops(bb | r1, r2);
            crate::board::lemma_bb_ops((bb | r1) | r2, r3);
        }
        bb = bb | r1 | r2 | r3;
        c = c + 1;
    }
    Bitboard(bb)
}

/// Build the king tables: the move table and both castling tables.
pub fn generate_tables() -> (r: (
    [Bitboard; 64],
    ([[[Bitboard; 2]; 8]; 2], [[[Bitboard; 2]; 8]; 2]),
))
    ensures
        forall|s: int, j: int|
            0 <= s < 64 ==> (#[trigger] bb_has(r.0@[s].0, j) <==> king_attacks(s, j)),
        forall|c: int, kf: int, side: int, j: int|
            0 <= c < 2 && 0 <= kf < 8 && 0 <= side < 2 ==> (#[trigger] bb_has(
                r.1.0@[c]@[kf]@[side].0,
                j,
            ) <==> castle_path_has(c, kf, side, j)),
        forall|c: int, kf: int, side: int, j: int|
            0 <= c < 2 && 0 <= kf < 8 && 0 <= side < 2 ==> (#[trigger] bb_has(
                r.1.1@[c]@[kf]@[side].0,
                j,
            ) <==> castle_clearance_has(c, kf, side, j)),
{
    (generate_moves(), generate_castle_paths())
}

} // verus!
