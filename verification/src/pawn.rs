use vstd::prelude::*;
use crate::bitboard::{bb_has, Bitboard};
use crate::board::{lemma_bb_ops, lemma_bb_pick};
use crate::color::Color;
use crate::square::{Rank, Square};
use crate::tables::{pawn_adv_target, pawn_cap_attacks, Tables};

verus! {

/// Whether square `j` is a playable advance of a pawn of color `c` on
/// square `s` over occupancy `occ`: an advance target that is empty, with
/// the double-step squares dropped as soon as any advance target is
/// blocked.
pub open spec fn pawn_adv_move(c: int, s: int, occ: u64, j: int) -> bool {
    &&& pawn_adv_target(c, s, j)
    &&& !bb_has(occ, j)
    &&& !((exists|x: int| pawn_adv_target(c, s, x) && #[trigger] bb_has(occ, x)) && (j / 8 == 3 || j
        / 8 == 4))
}

/// Get the possible advancing moves of a pawn: the advance targets that
/// stay available over the given occupancy.
pub fn advances(t: &Tables, color: Color, square: Square, blockers: Bitboard) -> (r: Bitboard)
    requires
        t.wf(),
    ensures
        forall|j: int|
            #[trigger] bb_has(r.0, j) <==> pawn_adv_move(color.index(), square.index(), blockers.0, j),
{
    let adv = t.pawn_advance_entry(color, square);
    let ghost c = color.index();
    let ghost sqi = square.index();
    let ghost occ = blockers.0;
    proof {
        lemma_bb_ops(adv.0, blockers.0);
        if exists|x: int| pawn_adv_target(c, sqi, x) && #[trigger] bb_has(occ, x) {
            let w = choose|x: int| pawn_adv_target(c, sqi, x) && #[trigger] bb_has(occ, x);
            assert(bb_has(adv.0, w));
            assert(bb_has(adv.0 & occ, w));
        }
        if adv.0 & occ != 0 {
            lemma_bb_pick(adv.0 & occ);
            let w = choose|i: int| #[trigger] bb_has(adv.0 & occ, i);
            assert(pawn_adv_target(c, sqi, w) && bb_has(occ, w));
        }
    }
    let base = if adv.0 & blockers.0 == 0 {
        adv.0
    } else {
        let r4 = Bitboard::from_rank(Rank::_4);
        let r5 = Bitboard::from_rank(Rank::_5);
        proof {
            lemma_bb_ops(adv.0, r4.0);
            lemma_bb_ops(adv.0 & !r4.0, r5.0);
        }
        adv.0 & !r4.0 & !r5.0
    };
    proof {
        lemma_bb_ops(base, blockers.0);
    }
    Bitboard(base & !blockers.0)
}

/// Get the possible capturing moves of a pawn.
pub fn captures(t: &Tables, color: Color, square: Square) -> (r: Bitboard)
    requires
        t.wf(),
    ensures
        forall|j: int|
            #[trigger] bb_has(r.0, j) <==> pawn_cap_attacks(color.index(), square.index(), j),
{
    t.pawn_capture_entry(color, square)
}

/// The ranks a double push crosses for the given color: the second and
/// fourth ranks from that side's point of view.
pub fn double_pushes(color: Color) -> (r: Bitboard)
    ensures
        forall|j: int|
            #[trigger] bb_has(r.0, j) <==> (0 <= j < 64 && (if color == Color::White {
                j / 8 == 1 || j / 8 == 3
            } else {
                j / 8 == 6 || j / 8 == 4
            })),
{
    let (a, b) = match color {
        Color::White => (Bitboard::from_rank(Rank::_2), Bitboard::from_rank(Rank::_4)),
        Color::Black => (Bitboard::from_rank(Rank::_7), Bitboard::from_rank(Rank::_5)),
    };
    proof {
        lemma_bb_ops(a.0, b.0);
    }
    Bitboard(a.0 | b.0)
}

/// The rank a double push of the given color lands on.
pub fn double_push_to(color: Color) -> (r: Bitboard)
    ensures
        forall|j: int|
            #[trigger] bb_has(r.0, j) <==> (0 <= j < 64 && j / 8 == (if color == Color::White {
                3int
            } else {
                4int
            })),
{
    match color {
        Color::White => Bitboard::from_rank(Rank::_4),
        Color::Black => Bitboard::from_rank(Rank::_5),
    }
}

/// The rank an en-passant capture of the given color lands on.
pub fn ep_target_rank(color: Color) -> (r: Rank)
    ensures
        r.index() == (if color == Color::White {
            5int
        } else {
            2int
        }),
{
    match color {
        Color::White => Rank::_6,
        Color::Black => Rank::_3,
    }
}

/// The squares of the en-passant landing rank of the given color.
pub fn ep_targets(color: Color) -> (r: Bitboard)
    ensures
        forall|j: int|
            #[trigger] bb_has(r.0, j) <==> (0 <= j < 64 && j / 8 == (if color == Color::White {
                5int
            } else {
                2int
            })),
{
    Bitboard::from_rank(ep_target_rank(color))
}

} // verus!
