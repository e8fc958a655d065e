use vstd::prelude::*;
use crate::bitboard::{bb_has, pcount, Bitboard};
use crate::rays::{bishop_attacks, rook_attacks};
use crate::square::Square;
use crate::Magic;

verus! {

/// The squares of file A.
pub const FILE_A_BB: u64 = 0x0101010101010101;

/// The squares of file H.
pub const FILE_H_BB: u64 = 0x8080808080808080;

/// The squares of the first rank.
pub const RANK_1_BB: u64 = 0xff;

/// The squares of the eighth rank.
pub const RANK_8_BB: u64 = 0xff00000000000000;

/// The absolute value of a coordinate difference.
pub open spec fn abs_d(x: int) -> int {
    if x < 0 {
        -x
    } else {
        x
    }
}

/// Whether a knight on square `s` attacks square `t`.
pub open spec fn knight_attacks(s: int, t: int) -> bool {
    &&& 0 <= s < 64
    &&& 0 <= t < 64
    &&& {
        let df = abs_d(t % 8 - s % 8);
        let dr = abs_d(t / 8 - s / 8);
        (df == 1 && dr == 2) || (df == 2 && dr == 1)
    }
}

/// Whether a king on square `s` attacks square `t`.
pub open spec fn king_attacks(s: int, t: int) -> bool {
    &&& 0 <= s < 64
    &&& 0 <= t < 64
    &&& abs_d(t % 8 - s % 8) <= 1
    &&& abs_d(t / 8 - s / 8) <= 1
    &&& t != s
}

/// The forward direction of the color with index `c`: up for white, down
/// for black.
pub open spec fn pawn_dir(c: int) -> int {
    if c == 0 {
        1
    } else {
        -1
    }
}

/// Whether a pawn of the color with index `c` on square `s` attacks square
/// `t` diagonally.
pub open spec fn pawn_cap_attacks(c: int, s: int, t: int) -> bool {
    &&& 0 <= s < 64
    &&& 0 <= t < 64
    &&& abs_d(t % 8 - s % 8) == 1
    &&& t / 8 - s / 8 == pawn_dir(c)
}

/// Whether square `t` is an advance target of a pawn of the color with
/// index `c` on square `s`: one step forward, or two from the pawn's
/// starting rank. Occupancy is not considered here.
pub open spec fn pawn_adv_target(c: int, s: int, t: int) -> bool {
    &&& 0 <= s < 64
    &&& 0 <= t < 64
    &&& t % 8 == s % 8
    &&& (t / 8 - s / 8 == pawn_dir(c) || (s / 8 == (if c == 0 {
        1int
    } else {
        6int
    }) && t / 8 - s / 8 == 2 * pawn_dir(c)))
}

/// The back rank index of the color with index `c`.
pub open spec fn back_rank_of(c: int) -> int {
    if c == 0 {
        0
    } else {
        7
    }
}

/// The file the king castles towards: G on the king side, C on the queen
/// side (`side` 0 is the king side).
pub open spec fn castle_dest_file(side: int) -> int {
    if side == 0 {
        6
    } else {
        2
    }
}

/// Whether square `j` is on the path the king must have safe while castling:
/// the back-rank squares from the king's file to the castling destination
/// file, both included; when the king starts right of the destination the
/// path runs from file C up to the king.
pub open spec fn castle_path_has(c: int, kf: int, side: int, j: int) -> bool {
    let cs = castle_dest_file(side);
    &&& 0 <= j < 64
    &&& j / 8 == back_rank_of(c)
    &&& (if kf > cs {
        2 <= j % 8 <= kf
    } else {
        kf <= j % 8 <= cs
    })
}

/// Whether square `j` must be empty for castling: the squares strictly
/// between the king's file and the destination side, following the table
/// the generator builds.
pub open spec fn castle_clearance_has(c: int, kf: int, side: int, j: int) -> bool {
    let cs = castle_dest_file(side);
    &&& 0 <= j < 64
    &&& j / 8 == back_rank_of(c)
    &&& (if kf > cs {
        1 <= j % 8 < kf
    } else {
        kf < j % 8 <= cs
    })
}

/// The relevance mask of a slider on square `s` with the full ray set `atk`:
/// the ray squares, with each edge line dropped unless the piece stands on
/// it.
pub open spec fn mask_spec(s: int, atk: u64) -> u64 {
    let m0 = if s % 8 != 0 {
        atk & !FILE_A_BB
    } else {
        atk
    };
    let m1 = if s % 8 != 7 {
        m0 & !FILE_H_BB
    } else {
        m0
    };
    let m2 = if s / 8 != 0 {
        m1 & !RANK_1_BB
    } else {
        m1
    };
    if s / 8 != 7 {
        m2 & !RANK_8_BB
    } else {
        m2
    }
}

/// The table index a magic entry assigns to a blocker subset.
pub open spec fn midx(b: u64, mul: u64, bits: u8) -> u64 {
    if bits == 0 {
        0
    } else {
        vstd::wrapping::u64_specs::wrapping_mul(b, mul) >> ((64 - bits) as u64)
    }
}

/// The attack set of one slider kind on square `s` over blockers `b`.
pub open spec fn slider_attacks(bishop: bool, s: int, b: u64) -> u64 {
    if bishop {
        bishop_attacks(s, b)
    } else {
        rook_attacks(s, b)
    }
}

/// Whether one magic entry is correct for its square: its mask is the
/// relevance mask, its width is the mask's bit count, and for every blocker
/// subset of the mask the indexed table entry holds exactly the brute-force
/// ray-cast attack set of that subset.
pub open spec fn magic_ok(e: (Magic, Vec<Bitboard>), bishop: bool, s: int) -> bool {
    &&& e.0.mask == mask_spec(s, slider_attacks(bishop, s, 0))
    &&& e.0.bits == pcount(e.0.mask)
    &&& e.0.bits <= 63
    &&& forall|b: u64|
        b & e.0.mask == b ==> ((#[trigger] midx(b, e.0.mul, e.0.bits)) < e.1@.len() && e.1@[midx(
            b,
            e.0.mul,
            e.0.bits,
        ) as int].0 == slider_attacks(bishop, s, b))
}

/// The precomputed attack tables: per-square leaper move sets, slider rays,
/// castling path masks, and the magic perfect-hash tables for both slider
/// kinds. Built once, read-only thereafter.
pub struct Tables {
    pub knight: [Bitboard; 64],
    pub king: [Bitboard; 64],
    pub pawn_advances: [[Bitboard; 64]; 2],
    pub pawn_captures: [[Bitboard; 64]; 2],
    pub bishop_rays: [Bitboard; 64],
    pub rook_rays: [Bitboard; 64],
    pub castle_path: [[[Bitboard; 2]; 8]; 2],
    pub castle_clearance: [[[Bitboard; 2]; 8]; 2],
    pub bishop_magic: Vec<(Magic, Vec<Bitboard>)>,
    pub rook_magic: Vec<(Magic, Vec<Bitboard>)>,
}

impl Tables {
    /// The well-formedness of the tables: every entry holds exactly the
    /// squares its attack-set definition gives it.
    pub open spec fn wf(self) -> bool {
        &&& forall|s: int, j: int|
            0 <= s < 64 ==> (#[trigger] bb_has(self.knight@[s].0, j) <==> knight_attacks(s, j))
        &&& forall|s: int, j: int|
            0 <= s < 64 ==> (#[trigger] bb_has(self.king@[s].0, j) <==> king_attacks(s, j))
        &&& forall|c: int, s: int, j: int|
            0 <= c < 2 && 0 <= s < 64 ==> (#[trigger] bb_has(self.pawn_advances@[c]@[s].0, j)
                <==> pawn_adv_target(c, s, j))
        &&& forall|c: int, s: int, j: int|
            0 <= c < 2 && 0 <= s < 64 ==> (#[trigger] bb_has(self.pawn_captures@[c]@[s].0, j)
                <==> pawn_cap_attacks(c, s, j))
        &&& forall|s: int|
            0 <= s < 64 ==> (#[trigger] self.bishop_rays@[s]).0 == bishop_attacks(s, 0)
        &&& forall|s: int| 0 <= s < 64 ==> (#[trigger] self.rook_rays@[s]).0 == rook_attacks(s, 0)
        &&& forall|c: int, kf: int, side: int, j: int|
            0 <= c < 2 && 0 <= kf < 8 && 0 <= side < 2 ==> (#[trigger] bb_has(
                self.castle_path@[c]@[kf]@[side].0,
                j,
            ) <==> castle_path_has(c, kf, side, j))
        &&& forall|c: int, kf: int, side: int, j: int|
            0 <= c < 2 && 0 <= kf < 8 && 0 <= side < 2 ==> (#[trigger] bb_has(
                self.castle_clearance@[c]@[kf]@[side].0,
                j,
            ) <==> castle_clearance_has(c, kf, side, j))
        &&& self.bishop_magic@.len() == 64
        &&& self.rook_magic@.len() == 64
        &&& forall|s: int| 0 <= s < 64 ==> magic_ok(#[trigger] self.bishop_magic@[s], true, s)
        &&& forall|s: int| 0 <= s < 64 ==> magic_ok(#[trigger] self.rook_magic@[s], false, s)
    }

    /// The bishop ray table entry of a square.
    pub fn bishop_ray(&self, square: Square) -> (r: Bitboard)
        requires
            self.wf(),
        ensures
            r.0 == bishop_attacks(square.index(), 0),
    {
        self.bishop_rays[square.to_usize()]
    }

    /// The rook ray table entry of a square.
    pub fn rook_ray(&self, square: Square) -> (r: Bitboard)
        requires
            self.wf(),
        ensures
            r.0 == rook_attacks(square.index(), 0),
    {
        self.rook_rays[square.to_usize()]
    }
}

/// The moves a slider lookup must return: the ray-cast attack set over the
/// blockers restricted to the square's relevance mask. Edge squares beyond
/// the mask can never change the result of a walk, so this is the blocker
/// set the magic tables are keyed on.
pub open spec fn slider_moves_spec(bishop: bool, s: int, occ: u64) -> u64 {
    slider_attacks(bishop, s, occ & mask_spec(s, slider_attacks(bishop, s, 0)))
}

impl Tables {
    /// Look up a slider attack set in one magic table.
    fn slider_moves(&self, bishop: bool, square: Square, blockers: Bitboard) -> (r: Bitboard)
        requires
            self.wf(),
        ensures
            r.0 == slider_moves_spec(bishop, square.index(), blockers.0),
    {
        let s = square.to_usize();
        let entry = if bishop {
            &self.bishop_magic
        } else {
            &self.rook_magic
        };
        let m = &entry[s].0;
        let masked = blockers.0 & m.mask;
        proof {
            let e = if bishop {
                self.bishop_magic@[s as int]
            } else {
                self.rook_magic@[s as int]
            };
            assert(magic_ok(e, bishop, s as int));
            crate::generator::magic_gen::lemma_and_mask(blockers.0, m.mask);
            assert(masked & e.0.mask == masked);
            let mi = midx(masked, e.0.mul, e.0.bits);
            assert(mi < e.1@.len() && e.1@[mi as int].0 == slider_attacks(bishop, s as int, masked));
        }
        let idx = crate::generator::magic_gen::to_index(Bitboard(masked), m);
        let tb = &entry[s].1;
        let l = tb.len();
        proof {
            assert(idx < l as u64);
        }
        tb[idx as usize]
    }

    /// Look up the bishop attack set of a square over the given blockers.
    pub fn bishop_moves(&self, square: Square, blockers: Bitboard) -> (r: Bitboard)
        requires
            self.wf(),
        ensures
            r.0 == slider_moves_spec(true, square.index(), blockers.0),
    {
        self.slider_moves(true, square, blockers)
    }

    /// Look up the rook attack set of a square over the given blockers.
    pub fn rook_moves(&self, square: Square, blockers: Bitboard) -> (r: Bitboard)
        requires
            self.wf(),
        ensures
            r.0 == slider_moves_spec(false, square.index(), blockers.0),
    {
        self.slider_moves(false, square, blockers)
    }
}

impl Tables {
    /// Build every table: leaper moves by direct enumeration, slider rays by
    /// ray-casting, castling paths, and the magic tables by randomized
    /// search. Returns nothing in the (practically impossible) event that
    /// the bounded magic search gives up.
    pub fn new() -> (r: Option<Tables>)
        ensures
            match r {
                Some(t) => t.wf(),
                None => true,
            },
    {
        let knight = crate::generator::knight_gen::generate_moves();
        let kg = crate::generator::king_gen::generate_tables();
        let pawns = crate::generator::pawn_gen::generate_moves();
        let rays = crate::generator::rays_gen::generate_rays();
        let magics = match crate::generator::magic_gen::generate_tables(&rays.0, &rays.1) {
            Some(m) => m,
            None => {
                return None;
            },
        };
        Some(
            Tables {
                knight,
                king: kg.0,
                pawn_advances: pawns.0,
                pawn_captures: pawns.1,
                bishop_rays: rays.0,
                rook_rays: rays.1,
                castle_path: kg.1.0,
                castle_clearance: kg.1.1,
                bishop_magic: magics.0,
                rook_magic: magics.1,
            },
        )
    }

    /// The knight move table entry of a square.
    pub(crate) fn knight_entry(&self, square: Square) -> (r: Bitboard)
        requires
            self.wf(),
        ensures
            forall|j: int| #[trigger] bb_has(r.0, j) <==> knight_attacks(square.index(), j),
    {
        self.knight[square.to_usize()]
    }

    /// The king move table entry of a square.
    pub(crate) fn king_entry(&self, square: Square) -> (r: Bitboard)
        requires
            self.wf(),
        ensures
            forall|j: int| #[trigger] bb_has(r.0, j) <==> king_attacks(square.index(), j),
    {
        self.king[square.to_usize()]
    }

    /// The raw pawn advance table entry of a square.
    pub(crate) fn pawn_advance_entry(&self, color: crate::color::Color, square: Square) -> (r:
        Bitboard)
        requires
            self.wf(),
        ensures
            forall|j: int|
                #[trigger] bb_has(r.0, j) <==> pawn_adv_target(color.index(), square.index(), j),
    {
        self.pawn_advances[color.to_index()][square.to_usize()]
    }

    /// The pawn capture table entry of a square.
    pub(crate) fn pawn_capture_entry(&self, color: crate::color::Color, square: Square) -> (r:
        Bitboard)
        requires
            self.wf(),
        ensures
            forall|j: int|
                #[trigger] bb_has(r.0, j) <==> pawn_cap_attacks(color.index(), square.index(), j),
    {
        self.pawn_captures[color.to_index()][square.to_usize()]
    }

    /// The castling path table entry of a color, king file and wing.
    pub(crate) fn castle_path_entry(&self, c: usize, kf: usize, side: usize) -> (r: Bitboard)
        requires
            self.wf(),
            c < 2,
            kf < 8,
            side < 2,
        ensures
            forall|j: int|
                #[trigger] bb_has(r.0, j) <==> castle_path_has(c as int, kf as int, side as int, j),
    {
        self.castle_path[c][kf][side]
    }

    /// The castling clearance table entry of a color, king file and wing.
    pub(crate) fn castle_clearance_entry(&self, c: usize, kf: usize, side: usize) -> (r: Bitboard)
        requires
            self.wf(),
            c < 2,
            kf < 8,
            side < 2,
        ensures
            forall|j: int|
                #[trigger] bb_has(r.0, j) <==> castle_clearance_has(
                    c as int,
                    kf as int,
                    side as int,
                    j,
                ),
    {
        self.castle_clearance[c][kf][side]
    }
}

} // verus!
