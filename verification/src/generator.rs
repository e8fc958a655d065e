use vstd::prelude::*;
use crate::bitboard::{bb_has, lemma_sq_bb, sq_bb};
use crate::board::lemma_bb_ops;
use crate::square::{File, Rank, Square};

pub mod bb_gen;
pub mod king_gen;
pub mod knight_gen;
pub mod magic_gen;
pub mod pawn_gen;
pub mod pawn_moves_gen;
pub mod rays_gen;

verus! {

/// Add the square with the given file and rank to a square set, if both
/// coordinates are on the board.
pub(crate) fn add_target(bb: u64, f2: Option<File>, r2: Option<Rank>) -> (r: u64)
    ensures
        forall|j: int|
            #[trigger] bb_has(r, j) <==> (bb_has(bb, j) || (f2 is Some && r2 is Some && j
                == r2->Some_0.index() * 8 + f2->Some_0.index())),
{
    match (f2, r2) {
        (Some(f), Some(rk)) => {
            let t = Square::new(f, rk);
            proof {
                lemma_sq_bb(t.index());
                lemma_bb_ops(bb, sq_bb(t.index()));
            }
            bb | (1u64 << (t.to_u8() as u64))
        },
        _ => {
            proof {
                lemma_bb_ops(bb, bb);
            }
            bb
        },
    }
}

/// The squares of one back-rank file span, both ends included; empty when
/// the span is reversed.
pub(crate) fn file_span(br: u8, lo: u8, hi: u8) -> (r: u64)
    requires
        br < 8,
        hi < 8,
    ensures
        forall|j: int|
            #[trigger] bb_has(r, j) <==> (0 <= j < 64 && j / 8 == br && lo <= j % 8 <= hi),
{
    let mut bb: u64 = 0;
    let mut f: u8 = lo;
    proof {
        lemma_bb_ops(0, 0);
    }
    while f <= hi
        invariant
            br < 8,
            hi < 8,
            lo <= f,
            f <= hi + 1 || f == lo,
            forall|j: int|
                #[trigger] bb_has(bb, j) <==> (0 <= j < 64 && j / 8 == br && lo <= j % 8 < f),
        decreases hi + 1 - f,
    {
        let t = Square::new(File::from_index(f), Rank::from_index(br));
        proof {
            lemma_sq_bb(t.index());
            lemma_bb_ops(bb, sq_bb(t.index()));
        }
        bb = bb | (1u64 << (t.to_u8() as u64));
        f = f + 1;
    }
    bb
}

} // verus!
