use vstd::prelude::*;
use crate::bitboard::{bb_has, Bitboard};
use crate::castle_rights::CastleRights;
use crate::chess_move::Move;
use crate::color::Color;
use crate::piece::Piece;
use crate::square::{File, Rank, Square};

pub mod epd;
pub mod fen;
pub mod movegen;
mod util;
mod zobrist;

verus! {

/// A chess board: per-piece and per-color bitboards, a redundant mailbox for
/// point lookup, the side to move, castling rights, the en-passant file, and
/// an incrementally maintained polyglot hash.
#[derive(Clone, Copy, Debug, PartialEq, Eq)]
pub struct Board {
    pieces: [Bitboard; 6],
    colors: [Bitboard; 2],
    side_to_move: Color,
    /// An internal square centric array for quicker piece and color lookup.
    mailbox: [u8; 64],
    /// Castle rights for white and black.
    castle_rights: [CastleRights; 2],
    hash: u64,
    en_passant: Option<File>,
}

/// The mailbox encoding of an occupied square: the color index plus one in
/// the high bits, the piece index in the low three.
pub open spec fn encode_pc(p: int, c: int) -> u8 {
    (((c + 1) * 8) + p) as u8
}

/// Bit-level facts about the mailbox encoding.
proof fn bv_mb(e: u8, c: u8, p: u8)
    by (bit_vector)
    ensures
        e & 7 < 8,
        e >> 3u8 == e / 8,
        e & 7 == e % 8,
        c < 2 && p < 6 ==> ((((c + 1) as u8) << 3u8) | p) == (c + 1) * 8 + p,
        c < 2 && p < 6 ==> ((((c + 1) as u8) << 3u8) | p) & 7 == p,
        c < 2 && p < 6 ==> ((((c + 1) as u8) << 3u8) | p) >> 3u8 == c + 1,
        c < 2 && p < 6 ==> ((((c + 1) as u8) << 3u8) | p) != 0,
{
}

/// Membership facts for the pointwise bitboard operations.
proof fn bv_bool(a: u64, b: u64, ju: u64)
    by (bit_vector)
    requires
        ju < 64,
    ensures
        (((a | b) >> ju) & 1 == 1) == ((a >> ju) & 1 == 1 || (b >> ju) & 1 == 1),
        (((a & b) >> ju) & 1 == 1) == ((a >> ju) & 1 == 1 && (b >> ju) & 1 == 1),
        (((a & !b) >> ju) & 1 == 1) == ((a >> ju) & 1 == 1 && !((b >> ju) & 1 == 1)),
        (((a ^ b) >> ju) & 1 == 1) == (((a >> ju) & 1 == 1) != ((b >> ju) & 1 == 1)),
        (a >> ju) & 1 == 1 ==> a != 0,
        ((0u64 >> ju) & 1 == 1) == false,
        (a >> ju) & 1 == 0 || (a >> ju) & 1 == 1,
{
}

/// A bit is either clear or set.
pub proof fn lemma_bit01(a: u64, j: u64)
    requires
        j < 64,
    ensures
        (a >> j) & 1 == 0 || (a >> j) & 1 == 1,
{
    bv_bool(a, a, j);
}

/// The members of a union, intersection, difference or symmetric difference
/// of two bitboards, pointwise.
pub proof fn lemma_bb_ops(a: u64, b: u64)
    ensures
        forall|i: int| #[trigger] bb_has(a | b, i) <==> (bb_has(a, i) || bb_has(b, i)),
        forall|i: int| #[trigger] bb_has(a & b, i) <==> (bb_has(a, i) && bb_has(b, i)),
        forall|i: int| #[trigger] bb_has(a & !b, i) <==> (bb_has(a, i) && !bb_has(b, i)),
        forall|i: int| #[trigger] bb_has(a ^ b, i) <==> (bb_has(a, i) != bb_has(b, i)),
        forall|i: int| !bb_has(0u64, i),
{
    assert forall|i: int| #[trigger] bb_has(a | b, i) <==> (bb_has(a, i) || bb_has(b, i)) by {
        if 0 <= i < 64 {
            bv_bool(a, b, i as u64);
        }
    }
    assert forall|i: int| #[trigger] bb_has(a & b, i) <==> (bb_has(a, i) && bb_has(b, i)) by {
        if 0 <= i < 64 {
            bv_bool(a, b, i as u64);
        }
    }
    assert forall|i: int| #[trigger] bb_has(a & !b, i) <==> (bb_has(a, i) && !bb_has(b, i)) by {
        if 0 <= i < 64 {
            bv_bool(a, b, i as u64);
        }
    }
    assert forall|i: int| #[trigger] bb_has(a ^ b, i) <==> (bb_has(a, i) != bb_has(b, i)) by {
        if 0 <= i < 64 {
            bv_bool(a, b, i as u64);
        }
    }
    assert forall|i: int| !bb_has(0u64, i) by {
        if 0 <= i < 64 {
            bv_bool(a, b, i as u64);
        }
    }
}

/// The exclusive-or identities used by the incremental hash proofs.
proof fn bv_xor(a: u64, b: u64, c: u64, d: u64)
    by (bit_vector)
    ensures
        a ^ b == b ^ a,
        (a ^ b) ^ b == a,
        a ^ 0 == a,
        0 ^ a == a,
        ((a ^ b) ^ b) ^ c == a ^ c,
        ((a ^ b) ^ c) ^ d == ((a ^ d) ^ b) ^ c,
        (a ^ b) ^ c == a ^ (b ^ c),
        a ^ a == 0,
{
}

/// Replacing one term of a four-term exclusive-or chain by that term
/// exclusive-or `u` changes the chain by `u`.
proof fn bv_xor4(t0: u64, t1: u64, t2: u64, t3: u64, u: u64)
    by (bit_vector)
    ensures
        ((((t0 ^ u) ^ t1) ^ t2) ^ t3) == ((((t0 ^ t1) ^ t2) ^ t3) ^ u),
        (((t0 ^ (t1 ^ u)) ^ t2) ^ t3) == ((((t0 ^ t1) ^ t2) ^ t3) ^ u),
        (((t0 ^ t1) ^ (t2 ^ u)) ^ t3) == ((((t0 ^ t1) ^ t2) ^ t3) ^ u),
        (((t0 ^ t1) ^ t2) ^ (t3 ^ u)) == ((((t0 ^ t1) ^ t2) ^ t3) ^ u),
        (((t0 ^ u) ^ t1) ^ t2) == (((t0 ^ t1) ^ t2) ^ u),
        ((t0 ^ (t1 ^ u)) ^ t2) == (((t0 ^ t1) ^ t2) ^ u),
        ((t0 ^ t1) ^ (t2 ^ u)) == (((t0 ^ t1) ^ t2) ^ u),
        (0u64 ^ u) == u,
        (u ^ u) == 0,
{
}

/// The hash key contributed by one mailbox entry on square `s`: the key of
/// the piece encoded there, or nothing for an empty square.
pub open spec fn mb_key(e: u8, s: int) -> u64 {
    if e == 0 {
        0
    } else {
        zobrist::piece_key((e & 7) as int, ((e >> 3u8) - 1) as int, s)
    }
}

impl Board {
    /// The piece bitboard with index `p`.
    pub closed spec fn spec_pieces(self, p: int) -> u64 {
        self.pieces[p].0
    }

    /// The color bitboard with index `c`.
    pub closed spec fn spec_colors(self, c: int) -> u64 {
        self.colors[c].0
    }

    /// The raw mailbox entry of square `i`.
    pub closed spec fn mb(self, i: int) -> u8 {
        self.mailbox[i]
    }

    /// The side to move.
    pub closed spec fn spec_side_to_move(self) -> Color {
        self.side_to_move
    }

    /// The castle rights of the color with index `c`.
    pub closed spec fn spec_castle_rights(self, c: int) -> CastleRights {
        self.castle_rights[c]
    }

    /// The en-passant file, if the previous move was a double pawn push.
    pub closed spec fn spec_en_passant(self) -> Option<File> {
        self.en_passant
    }

    /// The maintained incremental hash field.
    pub closed spec fn spec_hash_field(self) -> u64 {
        self.hash
    }

    /// The piece and color on square `i`, decoded from the mailbox.
    pub open spec fn spec_piece_at(self, i: int) -> Option<(Piece, Color)> {
        let e = self.mb(i);
        if e == 0 {
            None
        } else {
            Some(
                (
                    Piece::spec_from_index((e & 7) as int),
                    if e >> 3u8 == 1 {
                        Color::White
                    } else {
                        Color::Black
                    },
                ),
            )
        }
    }

    /// Whether square `i` is occupied.
    pub open spec fn spec_occupied(self, i: int) -> bool {
        self.mb(i) != 0
    }

    /// The well-formedness invariant: every mailbox entry decodes to a valid
    /// piece and color, the piece and color bitboards mirror the mailbox
    /// exactly, and the maintained hash equals the hash of the state.
    pub open spec fn wf(self) -> bool {
        &&& forall|i: int|
            0 <= i < 64 ==> ((#[trigger] self.mb(i)) != 0 ==> ((self.mb(i) & 7) < 6 && (self.mb(i)
                >> 3u8 == 1 || self.mb(i) >> 3u8 == 2)))
        &&& forall|i: int, p: int|
            0 <= i < 64 && 0 <= p < 6 ==> (#[trigger] bb_has(self.spec_pieces(p), i) <==> (self.mb(
            i) != 0 && (self.mb(i) & 7) == p))
        &&& forall|i: int, c: int|
            0 <= i < 64 && 0 <= c < 2 ==> (#[trigger] bb_has(self.spec_colors(c), i) <==> (self.mb(
            i) != 0 && (self.mb(i) >> 3u8) == c + 1))
        &&& self.spec_hash_field() == self.board_hash()
    }

    /// The color with index `c` has exactly one king.
    pub open spec fn kings_ok_for(self, c: int) -> bool {
        exists|k: int|
            0 <= k < 64 && #[trigger] self.mb(k) == encode_pc(5, c) && forall|j: int|
                0 <= j < 64 && j != k ==> #[trigger] self.mb(j) != encode_pc(5, c)
    }

    /// Both colors have exactly one king.
    pub open spec fn kings_ok(self) -> bool {
        self.kings_ok_for(0) && self.kings_ok_for(1)
    }

    /// The index of the king square of the color with index `c`.
    pub open spec fn spec_king_sq(self, c: int) -> int {
        choose|k: int| 0 <= k < 64 && #[trigger] self.mb(k) == encode_pc(5, c)
    }

    /// The placement part of the hash: the keys of the pieces on the squares
    /// below `n`, folded with exclusive-or.
    pub open spec fn placement_hash(self, n: int) -> u64
        decreases n,
    {
        if n <= 0 {
            0
        } else {
            self.placement_hash(n - 1) ^ mb_key(self.mb(n - 1), n - 1)
        }
    }

    /// The castling part of the hash: one key per currently allowed right.
    pub open spec fn castle_hash(self) -> u64 {
        (if self.spec_castle_rights(0).spec_king_side() {
            zobrist::castle_key(0)
        } else {
            0
        }) ^ (if self.spec_castle_rights(0).spec_queen_side() {
            zobrist::castle_key(1)
        } else {
            0
        }) ^ (if self.spec_castle_rights(1).spec_king_side() {
            zobrist::castle_key(2)
        } else {
            0
        }) ^ (if self.spec_castle_rights(1).spec_queen_side() {
            zobrist::castle_key(3)
        } else {
            0
        })
    }

    /// The side-to-move part of the hash.
    pub open spec fn side_hash(self) -> u64 {
        if self.spec_side_to_move() == Color::White {
            zobrist::side_key()
        } else {
            0
        }
    }

    /// The hash of the state, without the read-time en-passant rule.
    pub open spec fn board_hash(self) -> u64 {
        self.placement_hash(64) ^ self.side_hash() ^ self.castle_hash()
    }

    /// Whether the en-passant key is live: an en-passant file is set and a
    /// pawn of the side to move stands next to the enemy pawn that just
    /// double-pushed, ready to capture it.
    pub open spec fn ep_live(self) -> bool {
        match self.spec_en_passant() {
            None => false,
            Some(f) => {
                let cap_rank: int = if self.spec_side_to_move() == Color::White {
                    4
                } else {
                    3
                };
                let pawn_of_us = encode_pc(0, self.spec_side_to_move().index());
                ||| (f.index() >= 1 && self.mb(cap_rank * 8 + f.index() - 1) == pawn_of_us)
                ||| (f.index() <= 6 && self.mb(cap_rank * 8 + f.index() + 1) == pawn_of_us)
            },
        }
    }

    /// The full polyglot hash of this state, with the en-passant key folded
    /// in only when the en-passant capture is actually available.
    pub open spec fn spec_get_hash(self) -> u64 {
        match self.spec_en_passant() {
            Some(f) if self.ep_live() => self.board_hash() ^ zobrist::ep_key(f.index()),
            _ => self.board_hash(),
        }
    }
}

/// Two boards with equal mailboxes below `n` share that part of the
/// placement hash.
proof fn lemma_ph_agree(b1: Board, b2: Board, n: int)
    requires
        forall|i: int| 0 <= i < n ==> #[trigger] b1.mb(i) == b2.mb(i),
        n <= 64,
    ensures
        b1.placement_hash(n) == b2.placement_hash(n),
    decreases n,
{
    if n > 0 {
        lemma_ph_agree(b1, b2, n - 1);
    }
}

/// Changing the mailbox on one square changes the placement hash by the keys
/// of the old and new entries of that square.
proof fn lemma_ph_update(b1: Board, b2: Board, j: int, n: int)
    requires
        0 <= j < 64,
        forall|i: int| 0 <= i < 64 && i != j ==> #[trigger] b1.mb(i) == b2.mb(i),
        0 <= n <= 64,
    ensures
        n <= j ==> b2.placement_hash(n) == b1.placement_hash(n),
        n > j ==> b2.placement_hash(n) == (b1.placement_hash(n) ^ mb_key(b1.mb(j), j)) ^ mb_key(
            b2.mb(j),
            j,
        ),
    decreases n,
{
    if n > 0 {
        lemma_ph_update(b1, b2, j, n - 1);
        let k1 = mb_key(b1.mb(j), j);
        let k2 = mb_key(b2.mb(j), j);
        if n - 1 == j {
            let a = b1.placement_hash(j);
            bv_xor(a, k1, k2, 0);
        } else if n - 1 > j {
            let a = b1.placement_hash(n - 1);
            let k = mb_key(b1.mb(n - 1), n - 1);
            bv_xor(a, k1, k2, k);
        }
    }
}

impl Board {
    /// An empty board: no pieces, black to move, no castling rights, no
    /// en-passant file.
    #[verifier::rlimit(60)]
    pub fn empty() -> (r: Board)
        ensures
            r.wf(),
            forall|i: int| 0 <= i < 64 ==> #[trigger] r.mb(i) == 0,
            r.spec_side_to_move() == Color::Black,
            !r.spec_castle_rights(0).spec_king_side(),
            !r.spec_castle_rights(0).spec_queen_side(),
            !r.spec_castle_rights(1).spec_king_side(),
            !r.spec_castle_rights(1).spec_queen_side(),
            r.spec_castle_rights(0).spec_king_side_file() == 7,
            r.spec_castle_rights(0).spec_queen_side_file() == 0,
            r.spec_castle_rights(1).spec_king_side_file() == 7,
            r.spec_castle_rights(1).spec_queen_side_file() == 0,
            r.spec_en_passant() is None,
    {
        let cr = CastleRights::default_no_rights();
        let r = Board {
            pieces: [
                Bitboard(0),
                Bitboard(0),
                Bitboard(0),
                Bitboard(0),
                Bitboard(0),
                Bitboard(0),
            ],
            colors: [Bitboard(0), Bitboard(0)],
            side_to_move: Color::Black,
            mailbox: [0; 64],
            castle_rights: [cr, cr],
            hash: 0,
            en_passant: None,
        };
        proof {
            lemma_bb_ops(0, 0);
            lemma_ph_zero(r, 64);
            bv_xor(0, 0, 0, 0);
            assert(r.spec_castle_rights(0) == cr);
            assert(r.spec_castle_rights(1) == cr);
            assert(forall|i: int| 0 <= i < 64 ==> #[trigger] r.mb(i) == 0);
            assert(forall|i: int, p: int| 0 <= p < 6 ==> !(#[trigger] bb_has(r.spec_pieces(p), i)));
            assert(forall|i: int, c: int| 0 <= c < 2 ==> !(#[trigger] bb_has(r.spec_colors(c), i)));
            assert(r.side_hash() == 0 && r.castle_hash() == 0);
            assert(r.spec_hash_field() == r.board_hash());
            assert(r.wf());
        }
        r
    }
}

/// The placement hash of an empty mailbox prefix is zero.
proof fn lemma_ph_zero(b: Board, n: int)
    requires
        forall|i: int| 0 <= i < n ==> #[trigger] b.mb(i) == 0,
        n <= 64,
    ensures
        b.placement_hash(n) == 0,
    decreases n,
{
    if n > 0 {
        lemma_ph_zero(b, n - 1);
        bv_xor(0, 0, 0, 0);
    }
}

impl Board {
    /// Place a piece on an empty square, updating the bitboards, the mailbox
    /// and the hash together.
    #[verifier::rlimit(60)]
    pub(crate) fn place_unchecked(&mut self, color: Color, square: Square, piece: Piece)
        requires
            old(self).wf(),
            old(self).mb(square.index()) == 0,
        ensures
            final(self).wf(),
            final(self).mb(square.index()) == encode_pc(piece.index(), color.index()),
            forall|i: int| 0 <= i < 64 && i != square.index() ==> final(self).mb(i) == old(
                self,
            ).mb(i),
            final(self).spec_side_to_move() == old(self).spec_side_to_move(),
            final(self).spec_castle_rights(0) == old(self).spec_castle_rights(0),
            final(self).spec_castle_rights(1) == old(self).spec_castle_rights(1),
            final(self).spec_en_passant() == old(self).spec_en_passant(),
    {
        let ghost pre = *self;
        let bb = Bitboard::from_square(square);
        let p = piece.to_index();
        let c = color.to_index();
        let sqi = square.to_usize();
        let e: u8 = (((c as u8) + 1) << 3u8) | (p as u8);
        proof {
            bv_mb(e, c as u8, p as u8);
        }
        self.pieces[p] = Bitboard(self.pieces[p].0 | bb.0);
        self.colors[c] = Bitboard(self.colors[c].0 | bb.0);
        self.mailbox[sqi] = e;
        let key = zobrist::get_piece_key(piece, color, square);
        self.hash = self.hash ^ key;
        proof {
            let post = *self;
            let sq = square.index();
            assert(post.spec_pieces(p as int) == pre.spec_pieces(p as int) | bb.0);
            assert(post.spec_colors(c as int) == pre.spec_colors(c as int) | bb.0);
            assert(forall|q: int|
                0 <= q < 6 && q != p ==> #[trigger] post.spec_pieces(q) == pre.spec_pieces(q));
            assert(forall|q: int|
                0 <= q < 2 && q != c ==> #[trigger] post.spec_colors(q) == pre.spec_colors(q));
            assert(post.mb(sq) == e);
            assert forall|i: int, q: int| 0 <= i < 64 && 0 <= q < 6 implies (#[trigger] bb_has(
                post.spec_pieces(q),
                i,
            ) <==> (post.mb(i) != 0 && (post.mb(i) & 7) == q)) by {
                lemma_bb_ops(pre.spec_pieces(q), bb.0);
            }
            assert forall|i: int, q: int| 0 <= i < 64 && 0 <= q < 2 implies (#[trigger] bb_has(
                post.spec_colors(q),
                i,
            ) <==> (post.mb(i) != 0 && (post.mb(i) >> 3u8) == q + 1)) by {
                lemma_bb_ops(pre.spec_colors(q), bb.0);
            }
            lemma_ph_update(pre, post, sq, 64);
            assert(mb_key(pre.mb(sq), sq) == 0);
            assert(mb_key(post.mb(sq), sq) == key);
            let a = pre.placement_hash(64);
            let sh = pre.side_hash();
            let ch = pre.castle_hash();
            bv_xor(a, 0, key, 0);
            assert(post.placement_hash(64) == a ^ key);
            assert(post.spec_hash_field() == ((a ^ sh) ^ ch) ^ key);
            assert(((a ^ key) ^ sh) ^ ch == ((a ^ sh) ^ ch) ^ key) by {
                bv_xor4(a, sh, ch, 0, key);
            }
            assert forall|i: int| 0 <= i < 64 && i != sq implies #[trigger] post.mb(i) == pre.mb(
                i,
            ) by {}
            assert(e & 7 < 6);
            assert(e >> 3u8 == c + 1);
            assert(forall|i: int|
                0 <= i < 64 ==> ((#[trigger] post.mb(i)) != 0 ==> ((post.mb(i) & 7) < 6 && (
                post.mb(i) >> 3u8 == 1 || post.mb(i) >> 3u8 == 2))));
        }
    }

    /// Remove whatever stands on a square, updating the bitboards, the
    /// mailbox and the hash together; returns the removed piece, if any.
    #[verifier::rlimit(60)]
    pub(crate) fn erase_piece(&mut self, square: Square) -> (r: Option<(Piece, Color)>)
        requires
            old(self).wf(),
        ensures
            final(self).wf(),
            r == old(self).spec_piece_at(square.index()),
            final(self).mb(square.index()) == 0,
            forall|i: int| 0 <= i < 64 && i != square.index() ==> final(self).mb(i) == old(
                self,
            ).mb(i),
            final(self).spec_side_to_move() == old(self).spec_side_to_move(),
            final(self).spec_castle_rights(0) == old(self).spec_castle_rights(0),
            final(self).spec_castle_rights(1) == old(self).spec_castle_rights(1),
            final(self).spec_en_passant() == old(self).spec_en_passant(),
    {
        let ghost pre = *self;
        let sqi = square.to_usize();
        let e = self.mailbox[sqi];
        if e == 0 {
            return None;
        }
        let piece = Piece::from_index(e & 7);
        let color = if (e >> 3u8) == 1 {
            Color::White
        } else {
            Color::Black
        };
        let bb = Bitboard::from_square(square);
        let p = piece.to_index();
        let c = color.to_index();
        self.pieces[p] = Bitboard(self.pieces[p].0 ^ bb.0);
        self.colors[c] = Bitboard(self.colors[c].0 ^ bb.0);
        self.mailbox[sqi] = 0;
        let key = zobrist::get_piece_key(piece, color, square);
        self.hash = self.hash ^ key;
        proof {
            let post = *self;
            let sq = square.index();
            assert forall|i: int| 0 <= i < 64 && i != sq implies #[trigger] post.mb(i) == pre.mb(
                i,
            ) by {}
            assert(post.spec_pieces(p as int) == pre.spec_pieces(p as int) ^ bb.0);
            assert(post.spec_colors(c as int) == pre.spec_colors(c as int) ^ bb.0);
            assert(forall|q: int|
                0 <= q < 6 && q != p ==> #[trigger] post.spec_pieces(q) == pre.spec_pieces(q));
            assert(forall|q: int|
                0 <= q < 2 && q != c ==> #[trigger] post.spec_colors(q) == pre.spec_colors(q));
            assert(post.mb(sq) == 0);
            assert forall|i: int, q: int| 0 <= i < 64 && 0 <= q < 6 implies (#[trigger] bb_has(
                post.spec_pieces(q),
                i,
            ) <==> (post.mb(i) != 0 && (post.mb(i) & 7) == q)) by {
                lemma_bb_ops(pre.spec_pieces(q), bb.0);
            }
            assert forall|i: int, q: int| 0 <= i < 64 && 0 <= q < 2 implies (#[trigger] bb_has(
                post.spec_colors(q),
                i,
            ) <==> (post.mb(i) != 0 && (post.mb(i) >> 3u8) == q + 1)) by {
                lemma_bb_ops(pre.spec_colors(q), bb.0);
            }
            lemma_ph_update(pre, post, sq, 64);
            assert(mb_key(pre.mb(sq), sq) == key);
            assert(mb_key(post.mb(sq), sq) == 0);
            let a = pre.placement_hash(64);
            let sh = pre.side_hash();
            let ch = pre.castle_hash();
            bv_xor(a ^ key, 0, 0, 0);
            assert(post.placement_hash(64) == a ^ key);
            assert(((a ^ key) ^ sh) ^ ch == ((a ^ sh) ^ ch) ^ key) by {
                bv_xor4(a, sh, ch, 0, key);
            }
        }
        Some((piece, color))
    }

    /// Replace whatever stands on a square by the given piece; returns the
    /// replaced piece, if any.
    pub(crate) fn place_piece(&mut self, color: Color, square: Square, piece: Piece) -> (r: Option<
        (Piece, Color),
    >)
        requires
            old(self).wf(),
        ensures
            final(self).wf(),
            r == old(self).spec_piece_at(square.index()),
            final(self).mb(square.index()) == encode_pc(piece.index(), color.index()),
            forall|i: int| 0 <= i < 64 && i != square.index() ==> final(self).mb(i) == old(
                self,
            ).mb(i),
            final(self).spec_side_to_move() == old(self).spec_side_to_move(),
            final(self).spec_castle_rights(0) == old(self).spec_castle_rights(0),
            final(self).spec_castle_rights(1) == old(self).spec_castle_rights(1),
            final(self).spec_en_passant() == old(self).spec_en_passant(),
    {
        let ret = self.erase_piece(square);
        self.place_unchecked(color, square, piece);
        ret
    }
}

/// Undoes a null move: the state a null move must put back.
#[derive(Clone, Copy, Debug)]
pub struct NullMoveRestorer {
    en_passant: Option<File>,
}

impl NullMoveRestorer {
    /// The en-passant file that the matching null move cleared.
    pub closed spec fn spec_en_passant(self) -> Option<File> {
        self.en_passant
    }
}

impl Board {
    /// Grant the queen-side castling right of a color, keeping the hash in
    /// step.
    pub(crate) fn allow_queen_side_castle(&mut self, color: Color)
        requires
            old(self).wf(),
        ensures
            final(self).wf(),
            final(self).spec_castle_rights(color.index()).spec_queen_side(),
            final(self).spec_castle_rights(color.index()).spec_king_side() == old(
                self,
            ).spec_castle_rights(color.index()).spec_king_side(),
            final(self).spec_castle_rights(1 - color.index()) == old(self).spec_castle_rights(
                1 - color.index(),
            ),
            final(self).spec_castle_rights(color.index()).spec_king_side_file() == old(
                self,
            ).spec_castle_rights(color.index()).spec_king_side_file(),
            final(self).spec_castle_rights(color.index()).spec_queen_side_file() == old(
                self,
            ).spec_castle_rights(color.index()).spec_queen_side_file(),
            forall|i: int| 0 <= i < 64 ==> #[trigger] final(self).mb(i) == old(self).mb(i),
            final(self).spec_side_to_move() == old(self).spec_side_to_move(),
            final(self).spec_en_passant() == old(self).spec_en_passant(),
    {
        let ghost pre = *self;
        let c = color.to_index();
        let ghost mut k: u64 = 0;
        if !self.castle_rights[c].queen_side() {
            let key = zobrist::get_castle_key(c * 2 + 1);
            self.hash = self.hash ^ key;
            proof {
                k = key;
            }
        }
        let mut cr = self.castle_rights[c];
        cr.allow_queen_side();
        self.castle_rights[c] = cr;
        proof {
            let t0 = if pre.spec_castle_rights(0).spec_king_side() {
                zobrist::castle_key(0)
            } else {
                0u64
            };
            let t1 = if pre.spec_castle_rights(0).spec_queen_side() {
                zobrist::castle_key(1)
            } else {
                0u64
            };
            let t2 = if pre.spec_castle_rights(1).spec_king_side() {
                zobrist::castle_key(2)
            } else {
                0u64
            };
            let t3 = if pre.spec_castle_rights(1).spec_queen_side() {
                zobrist::castle_key(3)
            } else {
                0u64
            };
            bv_xor4(t0, t1, t2, t3, k);
            bv_xor(t0, 0, 0, 0);
            bv_xor(t1, 0, 0, 0);
            bv_xor(t2, 0, 0, 0);
            bv_xor(t3, 0, 0, 0);
            bv_xor(pre.spec_hash_field(), 0, 0, 0);
            lemma_castle_toggle(pre, *self, k);
        }
    }

    /// Grant the king-side castling right of a color, keeping the hash in
    /// step.
    pub(crate) fn allow_king_side_castle(&mut self, color: Color)
        requires
            old(self).wf(),
        ensures
            final(self).wf(),
            final(self).spec_castle_rights(color.index()).spec_king_side(),
            final(self).spec_castle_rights(color.index()).spec_queen_side() == old(
                self,
            ).spec_castle_rights(color.index()).spec_queen_side(),
            final(self).spec_castle_rights(1 - color.index()) == old(self).spec_castle_rights(
                1 - color.index(),
            ),
            final(self).spec_castle_rights(color.index()).spec_king_side_file() == old(
                self,
            ).spec_castle_rights(color.index()).spec_king_side_file(),
            final(self).spec_castle_rights(color.index()).spec_queen_side_file() == old(
                self,
            ).spec_castle_rights(color.index()).spec_queen_side_file(),
            forall|i: int| 0 <= i < 64 ==> #[trigger] final(self).mb(i) == old(self).mb(i),
            final(self).spec_side_to_move() == old(self).spec_side_to_move(),
            final(self).spec_en_passant() == old(self).spec_en_passant(),
    {
        let ghost pre = *self;
        let c = color.to_index();
        let ghost mut k: u64 = 0;
        if !self.castle_rights[c].king_side() {
            let key = zobrist::get_castle_key(c * 2);
            self.hash = self.hash ^ key;
            proof {
                k = key;
            }
        }
        let mut cr = self.castle_rights[c];
        cr.allow_king_side();
        self.castle_rights[c] = cr;
        proof {
            let t0 = if pre.spec_castle_rights(0).spec_king_side() {
                zobrist::castle_key(0)
            } else {
                0u64
            };
            let t1 = if pre.spec_castle_rights(0).spec_queen_side() {
                zobrist::castle_key(1)
            } else {
                0u64
            };
            let t2 = if pre.spec_castle_rights(1).spec_king_side() {
                zobrist::castle_key(2)
            } else {
                0u64
            };
            let t3 = if pre.spec_castle_rights(1).spec_queen_side() {
                zobrist::castle_key(3)
            } else {
                0u64
            };
            bv_xor4(t0, t1, t2, t3, k);
            bv_xor(t0, 0, 0, 0);
            bv_xor(t1, 0, 0, 0);
            bv_xor(t2, 0, 0, 0);
            bv_xor(t3, 0, 0, 0);
            bv_xor(pre.spec_hash_field(), 0, 0, 0);
            lemma_castle_toggle(pre, *self, k);
        }
    }

    /// Revoke the queen-side castling right of a color, keeping the hash in
    /// step.
    pub(crate) fn disallow_queen_side_castle(&mut self, color: Color)
        requires
            old(self).wf(),
        ensures
            final(self).wf(),
            !final(self).spec_castle_rights(color.index()).spec_queen_side(),
            final(self).spec_castle_rights(color.index()).spec_king_side() == old(
                self,
            ).spec_castle_rights(color.index()).spec_king_side(),
            final(self).spec_castle_rights(1 - color.index()) == old(self).spec_castle_rights(
                1 - color.index(),
            ),
            final(self).spec_castle_rights(color.index()).spec_king_side_file() == old(
                self,
            ).spec_castle_rights(color.index()).spec_king_side_file(),
            final(self).spec_castle_rights(color.index()).spec_queen_side_file() == old(
                self,
            ).spec_castle_rights(color.index()).spec_queen_side_file(),
            forall|i: int| 0 <= i < 64 ==> #[trigger] final(self).mb(i) == old(self).mb(i),
            final(self).spec_side_to_move() == old(self).spec_side_to_move(),
            final(self).spec_en_passant() == old(self).spec_en_passant(),
    {
        let ghost pre = *self;
        let c = color.to_index();
        let ghost mut k: u64 = 0;
        if self.castle_rights[c].queen_side() {
            let key = zobrist::get_castle_key(c * 2 + 1);
            self.hash = self.hash ^ key;
            proof {
                k = key;
            }
        }
        let mut cr = self.castle_rights[c];
        cr.disallow_queen_side();
        self.castle_rights[c] = cr;
        proof {
            let t0 = if pre.spec_castle_rights(0).spec_king_side() {
                zobrist::castle_key(0)
            } else {
                0u64
            };
            let t1 = if pre.spec_castle_rights(0).spec_queen_side() {
                zobrist::castle_key(1)
            } else {
                0u64
            };
            let t2 = if pre.spec_castle_rights(1).spec_king_side() {
                zobrist::castle_key(2)
            } else {
                0u64
            };
            let t3 = if pre.spec_castle_rights(1).spec_queen_side() {
                zobrist::castle_key(3)
            } else {
                0u64
            };
            bv_xor4(t0, t1, t2, t3, k);
            bv_xor(t0, 0, 0, 0);
            bv_xor(t1, 0, 0, 0);
            bv_xor(t2, 0, 0, 0);
            bv_xor(t3, 0, 0, 0);
            bv_xor(pre.spec_hash_field(), 0, 0, 0);
            lemma_castle_toggle(pre, *self, k);
        }
    }

    /// Revoke the king-side castling right of a color, keeping the hash in
    /// step.
    pub(crate) fn disallow_king_side_castle(&mut self, color: Color)
        requires
            old(self).wf(),
        ensures
            final(self).wf(),
            !final(self).spec_castle_rights(color.index()).spec_king_side(),
            final(self).spec_castle_rights(color.index()).spec_queen_side() == old(
                self,
            ).spec_castle_rights(color.index()).spec_queen_side(),
            final(self).spec_castle_rights(1 - color.index()) == old(self).spec_castle_rights(
                1 - color.index(),
            ),
            final(self).spec_castle_rights(color.index()).spec_king_side_file() == old(
                self,
            ).spec_castle_rights(color.index()).spec_king_side_file(),
            final(self).spec_castle_rights(color.index()).spec_queen_side_file() == old(
                self,
            ).spec_castle_rights(color.index()).spec_queen_side_file(),
            forall|i: int| 0 <= i < 64 ==> #[trigger] final(self).mb(i) == old(self).mb(i),
            final(self).spec_side_to_move() == old(self).spec_side_to_move(),
            final(self).spec_en_passant() == old(self).spec_en_passant(),
    {
        let ghost pre = *self;
        let c = color.to_index();
        let ghost mut k: u64 = 0;
        if self.castle_rights[c].king_side() {
            let key = zobrist::get_castle_key(c * 2);
            self.hash = self.hash ^ key;
            proof {
                k = key;
            }
        }
        let mut cr = self.castle_rights[c];
        cr.disallow_king_side();
        self.castle_rights[c] = cr;
        proof {
            let t0 = if pre.spec_castle_rights(0).spec_king_side() {
                zobrist::castle_key(0)
            } else {
                0u64
            };
            let t1 = if pre.spec_castle_rights(0).spec_queen_side() {
                zobrist::castle_key(1)
            } else {
                0u64
            };
            let t2 = if pre.spec_castle_rights(1).spec_king_side() {
                zobrist::castle_key(2)
            } else {
                0u64
            };
            let t3 = if pre.spec_castle_rights(1).spec_queen_side() {
                zobrist::castle_key(3)
            } else {
                0u64
            };
            bv_xor4(t0, t1, t2, t3, k);
            bv_xor(t0, 0, 0, 0);
            bv_xor(t1, 0, 0, 0);
            bv_xor(t2, 0, 0, 0);
            bv_xor(t3, 0, 0, 0);
            bv_xor(pre.spec_hash_field(), 0, 0, 0);
            lemma_castle_toggle(pre, *self, k);
        }
    }

    /// Pass the move to the other side without moving a piece, clearing the
    /// en-passant file. The returned restorer undoes it exactly.
    ///
    /// This should only be called while the side to move is not in check;
    /// that is the caller's responsibility.
    pub fn null_move(&mut self) -> (r: NullMoveRestorer)
        requires
            old(self).wf(),
        ensures
            final(self).wf(),
            final(self).spec_side_to_move() == old(self).spec_side_to_move().spec_not(),
            final(self).spec_en_passant() is None,
            r.spec_en_passant() == old(self).spec_en_passant(),
            forall|i: int| 0 <= i < 64 ==> #[trigger] final(self).mb(i) == old(self).mb(i),
            final(self).spec_castle_rights(0) == old(self).spec_castle_rights(0),
            final(self).spec_castle_rights(1) == old(self).spec_castle_rights(1),
    {
        let ghost pre = *self;
        self.side_to_move = self.side_to_move.not();
        self.hash = self.hash ^ zobrist::get_side_key();
        let ep = self.en_passant;
        self.en_passant = None;
        proof {
            lemma_side_flip(pre, *self);
        }
        NullMoveRestorer { en_passant: ep }
    }

    /// Restore a null move made by [`Self::null_move`].
    pub fn restore_null_move(&mut self, restorer: NullMoveRestorer)
        requires
            old(self).wf(),
        ensures
            final(self).wf(),
            final(self).spec_side_to_move() == old(self).spec_side_to_move().spec_not(),
            final(self).spec_en_passant() == restorer.spec_en_passant(),
            forall|i: int| 0 <= i < 64 ==> #[trigger] final(self).mb(i) == old(self).mb(i),
            final(self).spec_castle_rights(0) == old(self).spec_castle_rights(0),
            final(self).spec_castle_rights(1) == old(self).spec_castle_rights(1),
    {
        let ghost pre = *self;
        self.side_to_move = self.side_to_move.not();
        self.hash = self.hash ^ zobrist::get_side_key();
        self.en_passant = restorer.en_passant;
        proof {
            lemma_side_flip(pre, *self);
        }
    }

    /// Get the polyglot hash of this position. The en-passant key is folded
    /// in only when an en-passant capture is actually available, matching the
    /// polyglot book convention, so book lookups by hash succeed.
    pub fn get_hash(&self) -> (r: u64)
        requires
            self.wf(),
        ensures
            r == self.spec_get_hash(),
    {
        match self.en_passant {
            None => self.hash,
            Some(f) => {
                let c = self.side_to_move.to_index();
                let cap_rank: usize = if c == 0 {
                    4
                } else {
                    3
                };
                let fi = f.to_index() as usize;
                let pawn_of_us: u8 = (((c as u8) + 1) << 3u8) | 0;
                proof {
                    bv_mb(pawn_of_us, c as u8, 0);
                }
                let mut live = false;
                if fi >= 1 && self.mailbox[cap_rank * 8 + fi - 1] == pawn_of_us {
                    live = true;
                }
                if fi <= 6 && self.mailbox[cap_rank * 8 + fi + 1] == pawn_of_us {
                    live = true;
                }
                if live {
                    self.hash ^ zobrist::get_ep_key(fi)
                } else {
                    self.hash
                }
            },
        }
    }
}

/// A board differing from a well-formed one only in its castle rights, with
/// the hash updated by the exclusive-or delta of the castling part, is
/// well-formed again.
proof fn lemma_castle_toggle(pre: Board, post: Board, k: u64)
    requires
        pre.wf(),
        forall|i: int| 0 <= i < 64 ==> #[trigger] post.mb(i) == pre.mb(i),
        post.spec_pieces(0) == pre.spec_pieces(0),
        post.spec_pieces(1) == pre.spec_pieces(1),
        post.spec_pieces(2) == pre.spec_pieces(2),
        post.spec_pieces(3) == pre.spec_pieces(3),
        post.spec_pieces(4) == pre.spec_pieces(4),
        post.spec_pieces(5) == pre.spec_pieces(5),
        post.spec_colors(0) == pre.spec_colors(0),
        post.spec_colors(1) == pre.spec_colors(1),
        post.spec_side_to_move() == pre.spec_side_to_move(),
        post.castle_hash() == pre.castle_hash() ^ k,
        post.spec_hash_field() == pre.spec_hash_field() ^ k,
    ensures
        post.wf(),
{
    lemma_ph_agree(pre, post, 64);
    let a = pre.placement_hash(64);
    let sh = pre.side_hash();
    let c1 = pre.castle_hash();
    assert(post.spec_hash_field() == ((a ^ sh) ^ c1) ^ k);
    assert(((a ^ sh) ^ c1) ^ k == (a ^ sh) ^ (c1 ^ k)) by {
        bv_xor(a ^ sh, c1, k, 0);
    }
}

/// A board differing from a well-formed one only in its side to move and
/// en-passant file, with the hash updated by the side key, is well-formed.
proof fn lemma_side_flip(pre: Board, post: Board)
    requires
        pre.wf(),
        forall|i: int| 0 <= i < 64 ==> #[trigger] post.mb(i) == pre.mb(i),
        post.spec_pieces(0) == pre.spec_pieces(0),
        post.spec_pieces(1) == pre.spec_pieces(1),
        post.spec_pieces(2) == pre.spec_pieces(2),
        post.spec_pieces(3) == pre.spec_pieces(3),
        post.spec_pieces(4) == pre.spec_pieces(4),
        post.spec_pieces(5) == pre.spec_pieces(5),
        post.spec_colors(0) == pre.spec_colors(0),
        post.spec_colors(1) == pre.spec_colors(1),
        post.spec_castle_rights(0) == pre.spec_castle_rights(0),
        post.spec_castle_rights(1) == pre.spec_castle_rights(1),
        post.spec_side_to_move() == pre.spec_side_to_move().spec_not(),
        post.spec_hash_field() == pre.spec_hash_field() ^ zobrist::side_key(),
    ensures
        post.wf(),
{
    lemma_ph_agree(pre, post, 64);
    let a = pre.placement_hash(64);
    let s1 = pre.side_hash();
    let s2 = post.side_hash();
    let ch = pre.castle_hash();
    let key = zobrist::side_key();
    assert(((a ^ s1) ^ ch) ^ key == (a ^ s2) ^ ch) by {
        bv_xor4(a, s1, ch, 0, key);
        bv_xor4(a, s2, ch, 0, key);
        bv_xor(s1, key, s2, 0);
        bv_xor(key, 0, 0, 0);
    }
}

/// Whether a square index is one of the six squares a standard castling king
/// move touches: files C, E and G on either back rank.
pub open spec fn in_castle_zone(i: int) -> bool {
    i == 2 || i == 4 || i == 6 || i == 58 || i == 60 || i == 62
}

/// The index of the corner square of the color with index `c` on file `f`.
pub open spec fn corner(c: int, f: int) -> int {
    (if c == 0 {
        0int
    } else {
        56int
    }) + f
}

impl Board {
    /// The piece standing on the move's source square, before the move.
    pub open spec fn mm_piece(self, m: Move) -> Piece {
        Piece::spec_from_index((self.mb(m.spec_from()) & 7) as int)
    }

    /// The piece that ends up on the destination square: the promotion piece
    /// if one is given, the moving piece otherwise.
    pub open spec fn mm_placed(self, m: Move) -> Piece {
        match m.spec_promotion() {
            Some(p) => p,
            None => self.mm_piece(m),
        }
    }

    /// Whether applying `m` performs an en-passant capture: a pawn moves
    /// diagonally onto the en-passant file, landing on the en-passant rank.
    pub open spec fn mm_is_ep(self, m: Move) -> bool {
        &&& self.mm_piece(m) == Piece::Pawn
        &&& match self.spec_en_passant() {
            Some(f) => {
                &&& m.spec_from() % 8 != m.spec_to() % 8
                &&& m.spec_to() % 8 == f.index()
                &&& m.spec_to() / 8 == (if self.spec_side_to_move() == Color::White {
                    5int
                } else {
                    2int
                })
            },
            None => false,
        }
    }

    /// The square of the pawn removed by an en-passant capture: on the
    /// mover's starting rank, on the en-passant file.
    pub open spec fn mm_ep_victim(self, m: Move) -> int {
        (m.spec_from() / 8) * 8 + m.spec_to() % 8
    }

    /// Whether applying `m` is a castling king move: the king moves between
    /// the files C, E and G of a back rank.
    pub open spec fn mm_is_castle(self, m: Move) -> bool {
        self.mm_piece(m) == Piece::King && in_castle_zone(m.spec_from()) && in_castle_zone(
            m.spec_to(),
        )
    }

    /// The square the castling rook comes from: the corner on the side the
    /// king went to.
    pub open spec fn mm_rook_from(m: Move) -> int {
        (m.spec_to() / 8) * 8 + (if m.spec_to() % 8 < 4 {
            0int
        } else {
            7int
        })
    }

    /// The square the castling rook ends on: file D or F of the king's rank.
    pub open spec fn mm_rook_to(m: Move) -> int {
        (m.spec_to() / 8) * 8 + (if m.spec_to() % 8 < 4 {
            3int
        } else {
            5int
        })
    }

    /// The piece captured by `m`: whatever stood on the destination square,
    /// unless the move stays in place.
    pub open spec fn mm_captured(self, m: Move) -> Option<(Piece, Color)> {
        if m.spec_to() == m.spec_from() {
            None
        } else {
            self.spec_piece_at(m.spec_to())
        }
    }

    /// Whether applying `m` is a pawn double push, matching the rank-pair
    /// test the board performs: both squares lie on the mover's second and
    /// fourth ranks.
    pub open spec fn mm_is_double_push(self, m: Move) -> bool {
        let fr = m.spec_from() / 8;
        let tr = m.spec_to() / 8;
        self.mm_piece(m) == Piece::Pawn && (if self.spec_side_to_move() == Color::White {
            (fr == 1 || fr == 3) && (tr == 1 || tr == 3)
        } else {
            (fr == 6 || fr == 4) && (tr == 6 || tr == 4)
        })
    }

    /// The mailbox entry of square `i` after applying `m`: the moved (or
    /// promoted) piece on the destination, the castling rook relocated, the
    /// source and any captured squares emptied, everything else kept.
    pub open spec fn mm_result_mb(self, m: Move, i: int) -> u8 {
        let stm = self.spec_side_to_move().index();
        if self.mm_is_castle(m) && i == Board::mm_rook_to(m) {
            encode_pc(3, stm)
        } else if self.mm_is_castle(m) && i == Board::mm_rook_from(m) {
            0
        } else if self.mm_is_ep(m) && i == self.mm_ep_victim(m) {
            0
        } else if i == m.spec_to() {
            encode_pc(self.mm_placed(m).index(), stm)
        } else if i == m.spec_from() {
            0
        } else {
            self.mb(i)
        }
    }

    /// Whether applying `m` revokes the mover's king-side castling right: a
    /// king move, or a rook move from the mover's king-side corner.
    pub open spec fn mm_revokes_ks(self, m: Move) -> bool {
        self.mm_piece(m) == Piece::King || (self.mm_piece(m) == Piece::Rook && m.spec_from()
            == corner(self.spec_side_to_move().index(), 7))
    }

    /// Whether applying `m` revokes the mover's queen-side castling right.
    pub open spec fn mm_revokes_qs(self, m: Move) -> bool {
        self.mm_piece(m) == Piece::King || (self.mm_piece(m) == Piece::Rook && m.spec_from()
            == corner(self.spec_side_to_move().index(), 0))
    }

    /// Whether applying `m` revokes the opponent's king-side castling right:
    /// their rook is captured on its king-side corner square.
    pub open spec fn mm_revokes_their_ks(self, m: Move) -> bool {
        &&& self.mm_captured(m) == Some((Piece::Rook, self.spec_side_to_move().spec_not()))
        &&& m.spec_to() == corner(1 - self.spec_side_to_move().index(), 7)
    }

    /// Whether applying `m` revokes the opponent's queen-side castling right.
    pub open spec fn mm_revokes_their_qs(self, m: Move) -> bool {
        &&& self.mm_captured(m) == Some((Piece::Rook, self.spec_side_to_move().spec_not()))
        &&& m.spec_to() == corner(1 - self.spec_side_to_move().index(), 0)
    }

    /// Make a move on the board: move (and possibly promote) the piece on the
    /// source square, capture whatever stood on the destination or on the
    /// en-passant square, relocate the rook of a castling move, revoke the
    /// castling rights the move spends, record a double push in the
    /// en-passant file, and pass the move to the other side.
    ///
    /// The move is trusted to come from this position's own generator up to
    /// the source square being occupied; anything else is applied literally.
    #[verifier::rlimit(100)]
    pub fn make_move(&mut self, mov: Move)
        requires
            old(self).wf(),
            old(self).spec_occupied(mov.spec_from()),
        ensures
            final(self).wf(),
            forall|i: int|
                0 <= i < 64 ==> #[trigger] final(self).mb(i) == old(self).mm_result_mb(mov, i),
            final(self).spec_side_to_move() == old(self).spec_side_to_move().spec_not(),
            final(self).spec_en_passant() == (if old(self).mm_is_double_push(mov) {
                Some(File::spec_from_index(mov.spec_from() % 8))
            } else {
                None
            }),
            ({
                let s = old(self).spec_side_to_move().index();
                let o = 1 - s;
                &&& final(self).spec_castle_rights(s).spec_king_side() == (old(
                    self,
                ).spec_castle_rights(s).spec_king_side() && !old(self).mm_revokes_ks(mov))
                &&& final(self).spec_castle_rights(s).spec_queen_side() == (old(
                    self,
                ).spec_castle_rights(s).spec_queen_side() && !old(self).mm_revokes_qs(mov))
                &&& final(self).spec_castle_rights(o).spec_king_side() == (old(
                    self,
                ).spec_castle_rights(o).spec_king_side() && !old(self).mm_revokes_their_ks(mov))
                &&& final(self).spec_castle_rights(o).spec_queen_side() == (old(
                    self,
                ).spec_castle_rights(o).spec_queen_side() && !old(self).mm_revokes_their_qs(mov))
                &&& final(self).spec_castle_rights(0).spec_king_side_file() == old(
                    self,
                ).spec_castle_rights(0).spec_king_side_file()
                &&& final(self).spec_castle_rights(0).spec_queen_side_file() == old(
                    self,
                ).spec_castle_rights(0).spec_queen_side_file()
                &&& final(self).spec_castle_rights(1).spec_king_side_file() == old(
                    self,
                ).spec_castle_rights(1).spec_king_side_file()
                &&& final(self).spec_castle_rights(1).spec_queen_side_file() == old(
                    self,
                ).spec_castle_rights(1).spec_queen_side_file()
            }),
    {
        let ghost pre = *self;
        let from = mov.from();
        let to = mov.to();
        let stm = self.side_to_move;
        let pc = self.erase_piece(from);
        let piece = match pc {
            Some(t) => t.0,
            None => vstd::pervasive::unreached(),
        };
        let placed = match mov.promotion() {
            Some(p) => p,
            None => piece,
        };
        let capture = self.place_piece(stm, to, placed);
        match piece {
            Piece::Pawn => {
                match self.en_passant {
                    Some(ep) => {
                        let target_rank: u8 = if stm.to_index() == 0 {
                            5
                        } else {
                            2
                        };
                        if from.file().to_index() != to.file().to_index() && to.file().to_index()
                            == ep.to_index() && to.rank().to_index() == target_rank {
                            self.erase_piece(Square::new(ep, from.rank()));
                        }
                    },
                    None => {},
                }
            },
            Piece::Rook => {
                if from.to_u8() == Square::new(File::H, stm.back_rank()).to_u8() {
                    self.disallow_king_side_castle(stm);
                } else if from.to_u8() == Square::new(File::A, stm.back_rank()).to_u8() {
                    self.disallow_queen_side_castle(stm);
                }
            },
            Piece::King => {
                self.disallow_queen_side_castle(stm);
                self.disallow_king_side_castle(stm);
                let fi = from.to_u8();
                let ti = to.to_u8();
                if (fi == 2 || fi == 4 || fi == 6 || fi == 58 || fi == 60 || fi == 62) && (ti == 2
                    || ti == 4 || ti == 6 || ti == 58 || ti == 60 || ti == 62) {
                    let rook_at = Square::new(
                        if to.file().to_index() < 4 {
                            File::A
                        } else {
                            File::H
                        },
                        to.rank(),
                    );
                    let rook_to = Square::new(
                        if to.file().to_index() < 4 {
                            File::D
                        } else {
                            File::F
                        },
                        to.rank(),
                    );
                    self.erase_piece(rook_at);
                    self.place_piece(stm, rook_to, Piece::Rook);
                }
            },
            _ => {},
        }
        let not_stm = stm.not();
        let cap_enemy_rook = match capture {
            Some(t) => t.0 == Piece::Rook && t.1 == not_stm,
            None => false,
        };
        if cap_enemy_rook {
            if to.to_u8() == Square::new(File::H, not_stm.back_rank()).to_u8() {
                self.disallow_king_side_castle(not_stm);
            } else if to.to_u8() == Square::new(File::A, not_stm.back_rank()).to_u8() {
                self.disallow_queen_side_castle(not_stm);
            }
        }
        let fr = from.rank().to_index();
        let tr = to.rank().to_index();
        let dp = piece == Piece::Pawn && (if stm.to_index() == 0 {
            (fr == 1 || fr == 3) && (tr == 1 || tr == 3)
        } else {
            (fr == 6 || fr == 4) && (tr == 6 || tr == 4)
        });
        let ghost pre_ep = *self;
        self.en_passant = if dp {
            Some(from.file())
        } else {
            None
        };
        proof {
            let cur = *self;
            lemma_ph_agree(pre_ep, cur, 64);
            assert(forall|i: int| 0 <= i < 64 ==> #[trigger] cur.mb(i) == pre_ep.mb(i));
            assert(forall|p: int|
                0 <= p < 6 ==> #[trigger] cur.spec_pieces(p) == pre_ep.spec_pieces(p));
            assert(forall|c: int|
                0 <= c < 2 ==> #[trigger] cur.spec_colors(c) == pre_ep.spec_colors(c));
            assert(cur.wf());
        }
        let ghost pre_flip = *self;
        self.side_to_move = not_stm;
        self.hash = self.hash ^ zobrist::get_side_key();
        proof {
            lemma_side_flip(pre_flip, *self);
            let cur = *self;
            assert(forall|i: int| 0 <= i < 64 ==> #[trigger] cur.mb(i) == pre_flip.mb(i));
            let f = mov.spec_from();
            let t = mov.spec_to();
            assert forall|i: int| 0 <= i < 64 implies #[trigger] pre_flip.mb(i)
                == pre.mm_result_mb(mov, i) by {
                if pre.mm_is_castle(mov) && i == Board::mm_rook_to(mov) {
                } else if pre.mm_is_castle(mov) && i == Board::mm_rook_from(mov) {
                } else if pre.mm_is_ep(mov) && i == pre.mm_ep_victim(mov) {
                } else if i == t {
                } else if i == f {
                }
            }
        }
    }
}

/// The encoded entry of an occupied square is non-zero and decodes back to
/// its piece and color.
pub proof fn lemma_encode_pc(p: int, c: int)
    requires
        0 <= p < 6,
        0 <= c < 2,
    ensures
        encode_pc(p, c) != 0,
        encode_pc(p, c) & 7 == p,
        encode_pc(p, c) >> 3u8 == c + 1,
{
    bv_mb(encode_pc(p, c), c as u8, p as u8);
}

/// A mailbox entry is determined by its decoded piece and color fields.
pub proof fn lemma_mb_decode(e: u8)
    ensures
        e == (e >> 3u8) * 8 + (e & 7),
{
    bv_mb(e, 0, 0);
}

/// A non-empty bitboard has a member.
pub proof fn lemma_bb_pick(a: u64)
    requires
        a != 0,
    ensures
        exists|i: int| #[trigger] bb_has(a, i),
{
    vstd::std_specs::bits::axiom_u64_trailing_zeros(a);
    let tz = vstd::std_specs::bits::u64_trailing_zeros(a) as int;
    assert(bb_has(a, tz));
}

/// A bitboard with a member is not empty.
pub proof fn lemma_bb_nonzero(a: u64, i: int)
    requires
        bb_has(a, i),
    ensures
        a != 0,
{
    bv_bool(a, a, i as u64);
}

impl Board {
    /// The stored side to move.
    pub(crate) fn side_to_move_field(&self) -> (r: Color)
        ensures
            r == self.spec_side_to_move(),
    {
        self.side_to_move
    }

    /// The stored color bitboard with index `c`.
    pub(crate) fn colors_field(&self, c: usize) -> (r: Bitboard)
        requires
            c < 2,
        ensures
            r.0 == self.spec_colors(c as int),
    {
        self.colors[c]
    }

    /// The stored piece bitboard with index `p`.
    pub(crate) fn pieces_field(&self, p: usize) -> (r: Bitboard)
        requires
            p < 6,
        ensures
            r.0 == self.spec_pieces(p as int),
    {
        self.pieces[p]
    }

    /// The stored castle rights of the color with index `c`.
    pub(crate) fn castle_rights_field(&self, c: usize) -> (r: CastleRights)
        requires
            c < 2,
        ensures
            r == self.spec_castle_rights(c as int),
    {
        self.castle_rights[c]
    }

    /// The stored en-passant file.
    pub fn en_passant(&self) -> (r: Option<File>)
        ensures
            r == self.spec_en_passant(),
    {
        self.en_passant
    }

    /// Decode the mailbox entry of a square.
    pub(crate) fn read_square(&self, square: Square) -> (r: Option<(Piece, Color)>)
        requires
            self.wf(),
        ensures
            r == self.spec_piece_at(square.index()),
    {
        let e = self.mailbox[square.to_usize()];
        if e == 0 {
            None
        } else {
            let piece = Piece::from_index(e & 7);
            let color = if (e >> 3u8) == 1 {
                Color::White
            } else {
                Color::Black
            };
            Some((piece, color))
        }
    }
}

impl Board {
    /// Set the en-passant file directly, used while building a position from
    /// notation.
    pub(crate) fn set_en_passant(&mut self, ep: Option<File>)
        requires
            old(self).wf(),
        ensures
            final(self).wf(),
            final(self).spec_en_passant() == ep,
            forall|i: int| 0 <= i < 64 ==> #[trigger] final(self).mb(i) == old(self).mb(i),
            final(self).spec_side_to_move() == old(self).spec_side_to_move(),
            final(self).spec_castle_rights(0) == old(self).spec_castle_rights(0),
            final(self).spec_castle_rights(1) == old(self).spec_castle_rights(1),
    {
        let ghost pre = *self;
        self.en_passant = ep;
        proof {
            let cur = *self;
            lemma_ph_agree(pre, cur, 64);
            assert(forall|i: int| 0 <= i < 64 ==> #[trigger] cur.mb(i) == pre.mb(i));
            assert(forall|p: int|
                0 <= p < 6 ==> #[trigger] cur.spec_pieces(p) == pre.spec_pieces(p));
            assert(forall|c2: int|
                0 <= c2 < 2 ==> #[trigger] cur.spec_colors(c2) == pre.spec_colors(c2));
        }
    }

    /// Set the side to move directly, keeping the hash in step; used while
    /// building a position from notation.
    pub(crate) fn force_side(&mut self, c: Color)
        requires
            old(self).wf(),
        ensures
            final(self).wf(),
            final(self).spec_side_to_move() == c,
            forall|i: int| 0 <= i < 64 ==> #[trigger] final(self).mb(i) == old(self).mb(i),
            final(self).spec_en_passant() == old(self).spec_en_passant(),
            final(self).spec_castle_rights(0) == old(self).spec_castle_rights(0),
            final(self).spec_castle_rights(1) == old(self).spec_castle_rights(1),
    {
        let ghost pre = *self;
        let cur = self.side_to_move;
        let same = match (cur, c) {
            (Color::White, Color::White) => true,
            (Color::Black, Color::Black) => true,
            _ => false,
        };
        if !same {
            self.side_to_move = c;
            self.hash = self.hash ^ zobrist::get_side_key();
            proof {
                lemma_side_flip(pre, *self);
            }
        }
    }
}


} // verus!
