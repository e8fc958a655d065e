use vstd::prelude::*;
use crate::bitboard::{bb_has, Bitboard, BitboardIter};
use crate::board::{lemma_bb_nonzero, lemma_bb_ops, lemma_bb_pick, Board};
use crate::chess_move::Move;
use crate::color::Color;
use crate::piece::Piece;
use crate::square::Square;
use crate::tables::{king_attacks, knight_attacks, pawn_cap_attacks, slider_moves_spec, Tables};

verus! {

impl Board {
    /// The full occupancy of the board.
    pub open spec fn spec_occ(self) -> u64 {
        self.spec_colors(0) | self.spec_colors(1)
    }

    /// Whether the piece kind `p` of color `c` standing on square `q`
    /// attacks (or defends) square `j` over occupancy `occ`: the reach of
    /// its movement pattern, ignoring the occupant of `j` itself.
    pub open spec fn piece_atk(p: Piece, c: Color, q: int, occ: u64, j: int) -> bool {
        match p {
            Piece::Pawn => pawn_cap_attacks(c.index(), q, j),
            Piece::Knight => knight_attacks(q, j),
            Piece::Bishop => bb_has(slider_moves_spec(true, q, occ), j),
            Piece::Rook => bb_has(slider_moves_spec(false, q, occ), j),
            Piece::Queen => bb_has(slider_moves_spec(true, q, occ), j) || bb_has(
                slider_moves_spec(false, q, occ),
                j,
            ),
            Piece::King => king_attacks(q, j),
        }
    }

    /// Whether any piece of color `c` attacks or defends square `j`.
    pub open spec fn spec_side_attack(self, c: Color, j: int) -> bool {
        exists|q: int, p: Piece|
            0 <= q < 64 && #[trigger] self.spec_pc_is(q, p, c) && Board::piece_atk(
                p,
                c,
                q,
                self.spec_occ(),
                j,
            )
    }

    /// Whether the king of color `c` is attacked by any enemy piece,
    /// category by category as the legality filter computes it.
    pub open spec fn spec_side_check(self, c: Color) -> bool {
        let k = self.spec_king_sq(c.index());
        let o = c.spec_not();
        ||| (exists|j: int| knight_attacks(k, j) && #[trigger] self.spec_pc_is(j, Piece::Knight, o))
        ||| (exists|j: int|
            pawn_cap_attacks(c.index(), k, j) && #[trigger] self.spec_pc_is(j, Piece::Pawn, o))
        ||| (exists|j: int| king_attacks(k, j) && #[trigger] self.spec_has_piece(j, Piece::King))
        ||| (exists|j: int|
            bb_has(slider_moves_spec(true, k, self.spec_occ()), j) && (#[trigger] self.spec_pc_is(
                j,
                Piece::Bishop,
                o,
            ) || self.spec_pc_is(j, Piece::Queen, o)))
        ||| (exists|j: int|
            bb_has(slider_moves_spec(false, k, self.spec_occ()), j) && (#[trigger] self.spec_pc_is(
                j,
                Piece::Rook,
                o,
            ) || self.spec_pc_is(j, Piece::Queen, o)))
    }

    /// Whether one candidate attack set intersects one piece set of the
    /// board: the shared step of the check tests below.
    fn hit(&self, cand: Bitboard, pieces: Bitboard) -> (r: bool)
        ensures
            r == exists|j: int| #[trigger] bb_has(cand.0, j) && bb_has(pieces.0, j),
    {
        proof {
            lemma_bb_ops(cand.0, pieces.0);
            if cand.0 & pieces.0 != 0 {
                lemma_bb_pick(cand.0 & pieces.0);
            }
            if exists|j: int| #[trigger] bb_has(cand.0, j) && bb_has(pieces.0, j) {
                let w = choose|j: int| #[trigger] bb_has(cand.0, j) && bb_has(pieces.0, j);
                assert(bb_has(cand.0 & pieces.0, w));
                lemma_bb_nonzero(cand.0 & pieces.0, w);
            }
        }
        cand.0 & pieces.0 != 0
    }

    /// Get if the given side's king is attacked by any enemy piece: the
    /// legality filter's reverse lookup, one enemy piece category at a time.
    pub fn is_side_check(&self, t: &Tables, color: Color) -> (r: bool)
        requires
            self.wf(),
            t.wf(),
            self.kings_ok_for(color.index()),
        ensures
            r == self.spec_side_check(color),
    {
        let combined = self.combined();
        let ksq = self.king_of(color);
        let other = color.not();
        let ghost k = self.spec_king_sq(color.index());
        let ghost o = color.spec_not();
        let ob = self.bishops_of(other);
        let orr = self.rooks_of(other);
        let oq = self.queens_of(other);
        let km = crate::knight::moves(t, ksq);
        let kn = self.knights_of(other);
        let pm = crate::pawn::captures(t, color, ksq);
        let pp = self.pawns_of(other);
        let gm = crate::king::moves(t, ksq);
        let gg = self.kings();
        let bm = crate::bishop::moves(t, ksq, combined);
        let rm = crate::rook::moves(t, ksq, combined);
        let a = self.hit(km, kn);
        let b = self.hit(pm, pp);
        let c = self.hit(gm, gg);
        let d = self.hit(bm, Bitboard(ob.0 | oq.0));
        let e = self.hit(rm, Bitboard(orr.0 | oq.0));
        proof {
            lemma_bb_ops(ob.0, oq.0);
            lemma_bb_ops(orr.0, oq.0);
            assert(a == (exists|j: int|
                knight_attacks(k, j) && #[trigger] self.spec_pc_is(j, Piece::Knight, o))) by {
                if a {
                    let w = choose|j: int| #[trigger] bb_has(km.0, j) && bb_has(kn.0, j);
                    assert(knight_attacks(k, w) && self.spec_pc_is(w, Piece::Knight, o));
                }
                if exists|j: int|
                    knight_attacks(k, j) && #[trigger] self.spec_pc_is(j, Piece::Knight, o) {
                    let w = choose|j: int|
                        knight_attacks(k, j) && #[trigger] self.spec_pc_is(j, Piece::Knight, o);
                    assert(bb_has(km.0, w) && bb_has(kn.0, w));
                }
            }
            assert(b == (exists|j: int|
                pawn_cap_attacks(color.index(), k, j) && #[trigger] self.spec_pc_is(
                    j,
                    Piece::Pawn,
                    o,
                ))) by {
                if b {
                    let w = choose|j: int| #[trigger] bb_has(pm.0, j) && bb_has(pp.0, j);
                    assert(pawn_cap_attacks(color.index(), k, w) && self.spec_pc_is(
                        w,
                        Piece::Pawn,
                        o,
                    ));
                }
                if exists|j: int|
                    pawn_cap_attacks(color.index(), k, j) && #[trigger] self.spec_pc_is(
                        j,
                        Piece::Pawn,
                        o,
                    ) {
                    let w = choose|j: int|
                        pawn_cap_attacks(color.index(), k, j) && #[trigger] self.spec_pc_is(
                            j,
                            Piece::Pawn,
                            o,
                        );
                    assert(bb_has(pm.0, w) && bb_has(pp.0, w));
                }
            }
            assert(c == (exists|j: int|
                king_attacks(k, j) && #[trigger] self.spec_has_piece(j, Piece::King))) by {
                if c {
                    let w = choose|j: int| #[trigger] bb_has(gm.0, j) && bb_has(gg.0, j);
                    assert(king_attacks(k, w) && self.spec_has_piece(w, Piece::King));
                }
                if exists|j: int|
                    king_attacks(k, j) && #[trigger] self.spec_has_piece(j, Piece::King) {
                    let w = choose|j: int|
                        king_attacks(k, j) && #[trigger] self.spec_has_piece(j, Piece::King);
                    assert(bb_has(gm.0, w) && bb_has(gg.0, w));
                }
            }
            assert(d == (exists|j: int|
                bb_has(slider_moves_spec(true, k, self.spec_occ()), j) && (
                #[trigger] self.spec_pc_is(j, Piece::Bishop, o) || self.spec_pc_is(
                    j,
                    Piece::Queen,
                    o,
                )))) by {
                if d {
                    let w = choose|j: int| #[trigger] bb_has(bm.0, j) && bb_has(ob.0 | oq.0, j);
                    assert(bb_has(slider_moves_spec(true, k, self.spec_occ()), w) && (
                    self.spec_pc_is(w, Piece::Bishop, o) || self.spec_pc_is(w, Piece::Queen, o)));
                }
                if exists|j: int|
                    bb_has(slider_moves_spec(true, k, self.spec_occ()), j) && (
                    #[trigger] self.spec_pc_is(j, Piece::Bishop, o) || self.spec_pc_is(
                        j,
                        Piece::Queen,
                        o,
                    )) {
                    let w = choose|j: int|
                        bb_has(slider_moves_spec(true, k, self.spec_occ()), j) && (
                        #[trigger] self.spec_pc_is(j, Piece::Bishop, o) || self.spec_pc_is(
                            j,
                            Piece::Queen,
                            o,
                        ));
                    assert(bb_has(bm.0, w) && bb_has(ob.0 | oq.0, w));
                }
            }
            assert(e == (exists|j: int|
                bb_has(slider_moves_spec(false, k, self.spec_occ()), j) && (
                #[trigger] self.spec_pc_is(j, Piece::Rook, o) || self.spec_pc_is(
                    j,
                    Piece::Queen,
                    o,
                )))) by {
                if e {
                    let w = choose|j: int| #[trigger] bb_has(rm.0, j) && bb_has(orr.0 | oq.0, j);
                    assert(bb_has(slider_moves_spec(false, k, self.spec_occ()), w) && (
                    self.spec_pc_is(w, Piece::Rook, o) || self.spec_pc_is(w, Piece::Queen, o)));
                }
                if exists|j: int|
                    bb_has(slider_moves_spec(false, k, self.spec_occ()), j) && (
                    #[trigger] self.spec_pc_is(j, Piece::Rook, o) || self.spec_pc_is(
                        j,
                        Piece::Queen,
                        o,
                    )) {
                    let w = choose|j: int|
                        bb_has(slider_moves_spec(false, k, self.spec_occ()), j) && (
                        #[trigger] self.spec_pc_is(j, Piece::Rook, o) || self.spec_pc_is(
                            j,
                            Piece::Queen,
                            o,
                        ));
                    assert(bb_has(rm.0, w) && bb_has(orr.0 | oq.0, w));
                }
            }
        }
        a || b || c || d || e
    }

    /// Get if the side to move is in check.
    pub fn is_check(&self, t: &Tables) -> (r: bool)
        requires
            self.wf(),
            t.wf(),
            self.kings_ok_for(self.spec_side_to_move().index()),
        ensures
            r == self.spec_side_check(self.spec_side_to_move()),
    {
        self.is_side_check(t, self.side_to_move())
    }

    /// Get if the side that just moved is in check: whether the pseudo-legal
    /// move that produced this position was actually legal.
    pub fn is_illegal(&self, t: &Tables) -> (r: bool)
        requires
            self.wf(),
            t.wf(),
            self.kings_ok_for(self.spec_side_to_move().spec_not().index()),
        ensures
            r == self.spec_side_check(self.spec_side_to_move().spec_not()),
    {
        self.is_side_check(t, self.side_to_move().not())
    }

    /// Get the attackers and defenders of a particular square, of both
    /// colors.
    pub fn attackers(&self, t: &Tables, sq: Square) -> (r: Bitboard)
        requires
            self.wf(),
            t.wf(),
        ensures
            forall|j: int|
                #[trigger] bb_has(r.0, j) <==> {
                    ||| (pawn_cap_attacks(1, sq.index(), j) && self.spec_pc_is(
                        j,
                        Piece::Pawn,
                        Color::White,
                    ))
                    ||| (pawn_cap_attacks(0, sq.index(), j) && self.spec_pc_is(
                        j,
                        Piece::Pawn,
                        Color::Black,
                    ))
                    ||| (knight_attacks(sq.index(), j) && self.spec_has_piece(j, Piece::Knight))
                    ||| (bb_has(slider_moves_spec(true, sq.index(), self.spec_occ()), j) && (
                    self.spec_has_piece(j, Piece::Bishop) || self.spec_has_piece(j, Piece::Queen)))
                    ||| (bb_has(slider_moves_spec(false, sq.index(), self.spec_occ()), j) && (
                    self.spec_has_piece(j, Piece::Rook) || self.spec_has_piece(j, Piece::Queen)))
                    ||| (king_attacks(sq.index(), j) && self.spec_has_piece(j, Piece::King))
                },
    {
        let combined = self.combined();
        let cb = crate::pawn::captures(t, Color::Black, sq).0;
        let wp = self.white_pawns().0;
        let cw = crate::pawn::captures(t, Color::White, sq).0;
        let bp = self.black_pawns().0;
        let nt = crate::knight::moves(t, sq).0;
        let nn = self.knights().0;
        let bt = crate::bishop::moves(t, sq, combined).0;
        let rt = crate::rook::moves(t, sq, combined).0;
        let bb0 = self.bishops().0;
        let qq = self.queens().0;
        let rr = self.rooks().0;
        let kt = crate::king::moves(t, sq).0;
        let kk = self.kings().0;
        let p1 = cb & wp;
        let p2 = cw & bp;
        let n = nt & nn;
        let bq = bt & (bb0 | qq);
        let rq = rt & (rr | qq);
        let k = kt & kk;
        let r = ((((p1 | p2) | n) | bq) | rq) | k;
        proof {
            lemma_bb_ops(self.spec_colors(0), self.spec_colors(1));
            lemma_bb_ops(cb, wp);
            lemma_bb_ops(cw, bp);
            lemma_bb_ops(nt, nn);
            lemma_bb_ops(bb0, qq);
            lemma_bb_ops(rr, qq);
            lemma_bb_ops(bt, bb0 | qq);
            lemma_bb_ops(rt, rr | qq);
            lemma_bb_ops(kt, kk);
            lemma_bb_ops(p1, p2);
            lemma_bb_ops(p1 | p2, n);
            lemma_bb_ops((p1 | p2) | n, bq);
            lemma_bb_ops(((p1 | p2) | n) | bq, rq);
            lemma_bb_ops((((p1 | p2) | n) | bq) | rq, k);
        }
        Bitboard(r)
    }
}

impl Board {
    /// The en-passant capture square of the given color, pointwise: the
    /// square on the en-passant file, three ranks from the opponent's side.
    pub open spec fn spec_ep_square(self, c: Color, j: int) -> bool {
        match self.spec_en_passant() {
            Some(f) => j == (if c == Color::White {
                5int
            } else {
                2int
            }) * 8 + f.index(),
            None => false,
        }
    }

    /// Whether `j` is the available castling destination of the king of
    /// color `c` standing on square `s`, for the wing `side` with its rook
    /// on file `rf`: the right is intact, the rook stands on its corner, the
    /// clearance squares are empty and the king's path is safe.
    pub open spec fn spec_castle_dest(self, c: Color, s: int, side: int, rf: int, j: int) -> bool {
        let br = if c == Color::White {
            0int
        } else {
            7int
        };
        &&& self.spec_pc_is(br * 8 + rf, Piece::Rook, c)
        &&& (forall|x: int|
            crate::tables::castle_clearance_has(c.index(), s % 8, (if s % 8 > rf {
                1int
            } else {
                0int
            }), x) ==> !bb_has(self.spec_occ(), x))
        &&& (forall|x: int|
            crate::tables::castle_path_has(c.index(), s % 8, (if s % 8 > rf {
                1int
            } else {
                0int
            }), x) ==> !self.spec_side_attack(c.spec_not(), x))
        &&& j == (s / 8) * 8 + (if side == 0 {
            6int
        } else {
            2int
        })
    }

    /// The pseudo-legal target set of the piece `p` of color `c` on square
    /// `s`, pointwise. With `atkdef` the raw attacked-or-defended squares
    /// are produced: pawn advances, castling and the own-color exclusion are
    /// left out.
    pub open spec fn spec_piece_targets(
        self,
        c: Color,
        p: Piece,
        s: int,
        atkdef: bool,
        j: int,
    ) -> bool {
        let base = match p {
            Piece::Pawn => if atkdef {
                pawn_cap_attacks(c.index(), s, j)
            } else {
                crate::pawn::pawn_adv_move(c.index(), s, self.spec_occ(), j) || (pawn_cap_attacks(
                    c.index(),
                    s,
                    j,
                ) && (bb_has(self.spec_colors(c.spec_not().index()), j) || self.spec_ep_square(
                    c,
                    j,
                )))
            },
            Piece::Knight => knight_attacks(s, j),
            Piece::Bishop => bb_has(slider_moves_spec(true, s, self.spec_occ()), j),
            Piece::Rook => bb_has(slider_moves_spec(false, s, self.spec_occ()), j),
            Piece::Queen => bb_has(slider_moves_spec(true, s, self.spec_occ()), j) || bb_has(
                slider_moves_spec(false, s, self.spec_occ()),
                j,
            ),
            Piece::King => king_attacks(s, j) || (!atkdef && ((
            self.spec_castle_rights(c.index()).spec_king_side() && self.spec_castle_dest(
                c,
                s,
                0,
                self.spec_castle_rights(c.index()).spec_king_side_file(),
                j,
            )) || (self.spec_castle_rights(c.index()).spec_queen_side() && self.spec_castle_dest(
                c,
                s,
                1,
                self.spec_castle_rights(c.index()).spec_queen_side_file(),
                j,
            )))),
        };
        if atkdef {
            base
        } else {
            base && !bb_has(self.spec_colors(self.spec_side_to_move().index()), j)
        }
    }

    /// The raw attack-or-defence target set of one piece: the squares its
    /// pattern reaches over the current occupancy.
    pub(crate) fn attack_targets(&self, t: &Tables, color: Color, piece: Piece, sq: Square) -> (r:
        Bitboard)
        requires
            self.wf(),
            t.wf(),
        ensures
            forall|j: int|
                #[trigger] bb_has(r.0, j) <==> self.spec_piece_targets(
                    color,
                    piece,
                    sq.index(),
                    true,
                    j,
                ),
    {
        let combined = self.combined();
        match piece {
            Piece::Pawn => crate::pawn::captures(t, color, sq),
            Piece::Knight => crate::knight::moves(t, sq),
            Piece::Bishop => crate::bishop::moves(t, sq, combined),
            Piece::Rook => crate::rook::moves(t, sq, combined),
            Piece::Queen => {
                let b = crate::bishop::moves(t, sq, combined);
                let r2 = crate::rook::moves(t, sq, combined);
                proof {
                    lemma_bb_ops(b.0, r2.0);
                }
                Bitboard(b.0 | r2.0)
            },
            Piece::King => crate::king::moves(t, sq),
        }
    }

    /// The squares attacked or defended by every piece of one color.
    pub fn side_attack_def(&self, t: &Tables, color: Color) -> (r: Bitboard)
        requires
            self.wf(),
            t.wf(),
        ensures
            forall|j: int| #[trigger] bb_has(r.0, j) <==> self.spec_side_attack(color, j),
    {
        let mut atkdef: u64 = 0;
        let mut iter = self.color_combined(color).iter();
        proof {
            lemma_bb_ops(0, 0);
        }
        loop
            invariant
                self.wf(),
                t.wf(),
                forall|q: int|
                    #[trigger] bb_has(iter.0.0, q) ==> bb_has(self.spec_colors(color.index()), q),
                forall|j: int|
                    #[trigger] bb_has(atkdef, j) <==> exists|q: int, p: Piece|
                        0 <= q < 64 && #[trigger] self.spec_pc_is(q, p, color) && !bb_has(
                            iter.0.0,
                            q,
                        ) && Board::piece_atk(p, color, q, self.spec_occ(), j),
            ensures
                forall|j: int| #[trigger] bb_has(atkdef, j) <==> self.spec_side_attack(color, j),
            decreases iter.0.0,
        {
            let ghost pre_rem = iter.0.0;
            let nxt = iter.next();
            match nxt {
                None => {
                    proof {
                        lemma_bb_ops(0, 0);
                        let occ = self.spec_occ();
                        assert forall|j: int| #[trigger]
                            bb_has(atkdef, j) <==> self.spec_side_attack(color, j) by {
                            if bb_has(atkdef, j) {
                                let (q, p): (int, Piece) = choose|q: int, p: Piece|
                                    0 <= q < 64 && #[trigger] self.spec_pc_is(q, p, color)
                                        && !bb_has(iter.0.0, q) && Board::piece_atk(
                                        p,
                                        color,
                                        q,
                                        occ,
                                        j,
                                    );
                                assert(self.spec_pc_is(q, p, color) && Board::piece_atk(
                                    p,
                                    color,
                                    q,
                                    occ,
                                    j,
                                ));
                            }
                            if self.spec_side_attack(color, j) {
                                let (q, p): (int, Piece) = choose|q: int, p: Piece|
                                    0 <= q < 64 && #[trigger] self.spec_pc_is(q, p, color)
                                        && Board::piece_atk(p, color, q, occ, j);
                                assert(!bb_has(iter.0.0, q));
                                assert(bb_has(atkdef, j));
                            }
                        }
                    }
                    break ;
                },
                Some(sq) => {
                    let pc = self.piece_and_color_on(sq);
                    let piece = match pc {
                        Some(tp) => tp.0,
                        None => vstd::pervasive::unreached(),
                    };
                    let tgt = self.attack_targets(t, color, piece, sq);
                    proof {
                        lemma_bb_ops(atkdef, tgt.0);
                    }
                    let ghost old_acc = atkdef;
                    atkdef = atkdef | tgt.0;
                    proof {
                        let occ = self.spec_occ();
                        let rem = iter.0.0;
                        assert forall|j: int| #[trigger]
                            bb_has(atkdef, j) <==> exists|q: int, p: Piece|
                                0 <= q < 64 && #[trigger] self.spec_pc_is(q, p, color) && !bb_has(
                                    rem,
                                    q,
                                ) && Board::piece_atk(p, color, q, occ, j) by {
                            if bb_has(atkdef, j) {
                                if bb_has(old_acc, j) {
                                    let (q, p): (int, Piece) = choose|q: int, p: Piece|
                                        0 <= q < 64 && #[trigger] self.spec_pc_is(q, p, color)
                                            && !bb_has(pre_rem, q) && Board::piece_atk(
                                            p,
                                            color,
                                            q,
                                            occ,
                                            j,
                                        );
                                    assert(self.spec_pc_is(q, p, color) && !bb_has(rem, q)
                                        && Board::piece_atk(p, color, q, occ, j));
                                } else {
                                    assert(self.spec_pc_is(sq.index(), piece, color) && !bb_has(
                                        rem,
                                        sq.index(),
                                    ) && Board::piece_atk(piece, color, sq.index(), occ, j));
                                }
                            }
                            if exists|q: int, p: Piece|
                                0 <= q < 64 && #[trigger] self.spec_pc_is(q, p, color) && !bb_has(
                                    rem,
                                    q,
                                ) && Board::piece_atk(p, color, q, occ, j) {
                                let (q, p): (int, Piece) = choose|q: int, p: Piece|
                                    0 <= q < 64 && #[trigger] self.spec_pc_is(q, p, color)
                                        && !bb_has(rem, q) && Board::piece_atk(p, color, q, occ, j);
                                if q == sq.index() {
                                    assert(p == piece);
                                    assert(bb_has(tgt.0, j));
                                } else {
                                    assert(!bb_has(pre_rem, q));
                                    assert(bb_has(old_acc, j));
                                }
                            }
                        }
                    }
                },
            }
        }
        Bitboard(atkdef)
    }
}

impl Board {
    /// The pseudo-legal target set of one piece of the side to move,
    /// including castling destinations for the king; with `atkdef` only the
    /// raw attacked squares.
    #[verifier::rlimit(100)]
    pub(crate) fn piece_targets(&self, t: &Tables, color: Color, piece: Piece, sq: Square, atkdef:
        bool) -> (r: Bitboard)
        requires
            self.wf(),
            t.wf(),
        ensures
            forall|j: int|
                #[trigger] bb_has(r.0, j) <==> self.spec_piece_targets(
                    color,
                    piece,
                    sq.index(),
                    atkdef,
                    j,
                ),
    {
        let combined = self.combined();
        let base: Bitboard = match piece {
            Piece::Pawn => {
                if atkdef {
                    crate::pawn::captures(t, color, sq)
                } else {
                    let adv = crate::pawn::advances(t, color, sq, combined);
                    let caps = crate::pawn::captures(t, color, sq);
                    let enemy = self.color_combined(color.not());
                    let epbb: Bitboard = match self.en_passant() {
                        Some(f) => {
                            let ri: u8 = if color.to_index() == 0 {
                                5
                            } else {
                                2
                            };
                            Bitboard::from_square(
                                Square::new(f, crate::square::Rank::from_index(ri)),
                            )
                        },
                        None => Bitboard(0),
                    };
                    proof {
                        lemma_bb_ops(0, 0);
                        lemma_bb_ops(enemy.0, epbb.0);
                        lemma_bb_ops(caps.0, enemy.0 | epbb.0);
                        lemma_bb_ops(adv.0, caps.0 & (enemy.0 | epbb.0));
                    }
                    Bitboard(adv.0 | (caps.0 & (enemy.0 | epbb.0)))
                }
            },
            Piece::Knight => crate::knight::moves(t, sq),
            Piece::Bishop => crate::bishop::moves(t, sq, combined),
            Piece::Rook => crate::rook::moves(t, sq, combined),
            Piece::Queen => {
                let b = crate::bishop::moves(t, sq, combined);
                let r2 = crate::rook::moves(t, sq, combined);
                proof {
                    lemma_bb_ops(b.0, r2.0);
                }
                Bitboard(b.0 | r2.0)
            },
            Piece::King => {
                let mut moves = crate::king::moves(t, sq);
                if !atkdef {
                    let cr = self.castle_rights_of(color);
                    if cr.king_side() {
                        moves = self.add_castle(t, color, sq, moves, 0);
                    }
                    if cr.queen_side() {
                        moves = self.add_castle(t, color, sq, moves, 1);
                    }
                }
                moves
            },
        };
        if atkdef {
            base
        } else {
            let own = self.color_combined(self.side_to_move());
            proof {
                lemma_bb_ops(base.0, own.0);
            }
            Bitboard(base.0 & !own.0)
        }
    }

    /// Add the castling destination of one wing to a king's move set, when
    /// the castle is available.
    #[verifier::rlimit(100)]
    fn add_castle(&self, t: &Tables, color: Color, sq: Square, moves: Bitboard, side: u8) -> (r:
        Bitboard)
        requires
            self.wf(),
            t.wf(),
            side < 2,
        ensures
            forall|j: int|
                #[trigger] bb_has(r.0, j) <==> (bb_has(moves.0, j) || self.spec_castle_dest(
                    color,
                    sq.index(),
                    side as int,
                    if side == 0 {
                        self.spec_castle_rights(color.index()).spec_king_side_file()
                    } else {
                        self.spec_castle_rights(color.index()).spec_queen_side_file()
                    },
                    j,
                )),
    {
        let cr = self.castle_rights_of(color);
        let rf = if side == 0 {
            cr.king_side_file()
        } else {
            cr.queen_side_file()
        };
        let rooks = self.rooks_of(color);
        let fbb = Bitboard::from_file(rf);
        let rkb = Bitboard::from_rank(color.back_rank());
        let rbb = rooks.0 & fbb.0 & rkb.0;
        proof {
            lemma_bb_ops(rooks.0, fbb.0);
            lemma_bb_ops(rooks.0 & fbb.0, rkb.0);
            lemma_bb_ops(moves.0, moves.0);
        }
        let ghost br: int = if color == Color::White { 0int } else { 7int };
        let ghost rsq = br * 8 + rf.index();
        match Bitboard(rbb).first_square() {
            None => {
                proof {
                    assert(!bb_has(rbb, rsq));
                    assert(!self.spec_pc_is(rsq, Piece::Rook, color));
                }
                moves
            },
            Some(ks_rook) => {
                proof {
                    assert(bb_has(rbb, ks_rook.index()));
                    assert(ks_rook.index() == rsq);
                }
                let clearance = crate::king::castle_clearance(t, color, sq.file(), ks_rook.file());
                let path = crate::king::castle_path(t, color, sq.file(), ks_rook.file());
                let combined = self.combined();
                let enemy_atk = self.side_attack_def(t, color.not());
                let clear_block = self.hit(clearance, combined);
                let path_block = self.hit(path, enemy_atk);
                proof {
                    let c = color.index();
                    let kf = sq.index() % 8;
                    let sd: int = if kf > rf.index() {
                        1int
                    } else {
                        0int
                    };
                    assert(!clear_block == (forall|x: int|
                        crate::tables::castle_clearance_has(c, kf, sd, x) ==> !bb_has(
                            self.spec_occ(),
                            x,
                        ))) by {
                        if !clear_block {
                            assert forall|x: int|
                                crate::tables::castle_clearance_has(c, kf, sd, x) implies !bb_has(
                                self.spec_occ(),
                                x,
                            ) by {
                                assert(bb_has(clearance.0, x));
                            }
                        } else {
                            let w = choose|j: int|
                                #[trigger] bb_has(clearance.0, j) && bb_has(combined.0, j);
                            assert(crate::tables::castle_clearance_has(c, kf, sd, w) && bb_has(
                                self.spec_occ(),
                                w,
                            ));
                        }
                    }
                    assert(!path_block == (forall|x: int|
                        crate::tables::castle_path_has(c, kf, sd, x)
                            ==> !self.spec_side_attack(color.spec_not(), x))) by {
                        if !path_block {
                            assert forall|x: int|
                                crate::tables::castle_path_has(c, kf, sd, x)
                                    implies !self.spec_side_attack(color.spec_not(), x) by {
                                assert(bb_has(path.0, x));
                                assert(!bb_has(enemy_atk.0, x));
                            }
                        } else {
                            let w = choose|j: int|
                                #[trigger] bb_has(path.0, j) && bb_has(enemy_atk.0, j);
                            assert(crate::tables::castle_path_has(c, kf, sd, w)
                                && self.spec_side_attack(color.spec_not(), w));
                        }
                    }
                }
                if !clear_block && !path_block {
                    let destf: u8 = if side == 0 {
                        6
                    } else {
                        2
                    };
                    let dest = Square::new(crate::square::File::from_index(destf), sq.rank());
                    let db = Bitboard::from_square(dest);
                    proof {
                        lemma_bb_ops(moves.0, db.0);
                    }
                    Bitboard(moves.0 | db.0)
                } else {
                    moves
                }
            },
        }
    }
}

/// A staged pseudo-legal move generator: walks the side to move's occupied
/// squares and yields each piece's moves as one chunk.
pub struct MoveGen {
    pub board: Board,
    pub pieces: BitboardIter,
    pub captures: bool,
}

impl MoveGen {
    /// The generator's invariant: its board is well-formed and the squares
    /// still to visit all hold pieces of the side to move.
    pub open spec fn inv(self) -> bool {
        &&& self.board.wf()
        &&& forall|q: int|
            #[trigger] bb_has(self.pieces.0.0, q) ==> self.board.spec_has_color(
                q,
                self.board.spec_side_to_move(),
            )
    }
}

/// Whether one generated move is a sound pseudo-legal move of board `b`:
/// its source holds a piece of the side to move, its destination is in that
/// piece's pseudo-legal target set, promotions appear exactly on a pawn's
/// back-rank moves, and in capture-only mode the destination is occupied.
pub open spec fn gen_move_ok(b: Board, m: Move, captures: bool) -> bool {
    exists|p: Piece|
        {
            &&& #[trigger] b.spec_pc_is(m.spec_from(), p, b.spec_side_to_move())
            &&& b.spec_piece_targets(b.spec_side_to_move(), p, m.spec_from(), false, m.spec_to())
            &&& (captures ==> bb_has(b.spec_occ(), m.spec_to()))
            &&& (m.spec_promotion() is Some <==> (p == Piece::Pawn && (m.spec_to() / 8 == 0
                || m.spec_to() / 8 == 7)))
        }
}


/// Whether square `j` is a generated target of the piece `p` of the side to
/// move on square `s`: a pseudo-legal target, restricted to the occupied
/// squares in capture-only mode.
pub open spec fn chunk_target(b: Board, p: Piece, s: int, cap: bool, j: int) -> bool {
    b.spec_piece_targets(b.spec_side_to_move(), p, s, false, j) && (cap ==> bb_has(
        b.spec_occ(),
        j,
    ))
}

/// The source, destination and promotion fields of a move.
pub open spec fn mv_fields(m: Move) -> (int, int, Option<Piece>) {
    (m.spec_from(), m.spec_to(), m.spec_promotion())
}

/// The move fields one target square contributes: the four promotions in
/// Knight, Bishop, Rook, Queen order for a pawn reaching a back rank, one
/// plain move otherwise.
pub open spec fn target_fields(p: Piece, s: int, t: int) -> Seq<(int, int, Option<Piece>)> {
    if p == Piece::Pawn && (t / 8 == 0 || t / 8 == 7) {
        seq![
            (s, t, Some(Piece::Knight)),
            (s, t, Some(Piece::Bishop)),
            (s, t, Some(Piece::Rook)),
            (s, t, Some(Piece::Queen)),
        ]
    } else {
        seq![(s, t, None)]
    }
}

/// The move fields of every generated target square below `n`, in ascending
/// square order: at `n == 64`, the exact content of one generated chunk.
pub open spec fn chunk_fields(b: Board, p: Piece, s: int, cap: bool, n: int) -> Seq<
    (int, int, Option<Piece>),
>
    decreases n,
{
    if n <= 0 {
        Seq::empty()
    } else if chunk_target(b, p, s, cap, n - 1) {
        chunk_fields(b, p, s, cap, n - 1) + target_fields(p, s, n - 1)
    } else {
        chunk_fields(b, p, s, cap, n - 1)
    }
}

/// Squares that are not targets contribute nothing to the chunk fields.
proof fn lemma_chunk_fields_skip(b: Board, p: Piece, s: int, cap: bool, k: int, m: int)
    requires
        k <= m,
        forall|j: int| k <= j < m ==> !chunk_target(b, p, s, cap, j),
    ensures
        chunk_fields(b, p, s, cap, m) == chunk_fields(b, p, s, cap, k),
    decreases m - k,
{
    if k < m {
        lemma_chunk_fields_skip(b, p, s, cap, k, m - 1);
    }
}

impl Board {
    /// Generate the pseudo-legal moves of the side to move, staged per
    /// piece.
    pub fn pseudo_legal_moves(&self) -> (r: MoveGen)
        requires
            self.wf(),
        ensures
            r.inv(),
            r.board == *self,
            !r.captures,
            forall|q: int|
                #[trigger] bb_has(r.pieces.0.0, q) <==> self.spec_has_color(
                    q,
                    self.spec_side_to_move(),
                ),
    {
        MoveGen { board: *self, pieces: self.our_pieces().iter(), captures: false }
    }

    /// Generate the pseudo-legal captures of the side to move, staged per
    /// piece.
    pub fn pseudo_legal_captures(&self) -> (r: MoveGen)
        requires
            self.wf(),
        ensures
            r.inv(),
            r.board == *self,
            r.captures,
            forall|q: int|
                #[trigger] bb_has(r.pieces.0.0, q) <==> self.spec_has_color(
                    q,
                    self.spec_side_to_move(),
                ),
    {
        MoveGen { board: *self, pieces: self.our_pieces().iter(), captures: true }
    }
}

impl MoveGen {
    /// Fill the chunk with the moves of the next staged piece: the lowest
    /// square still to visit is removed from the iterator, and the chunk is
    /// replaced by exactly that piece's moves, target squares in ascending
    /// order, a pawn's back-rank targets expanded into the four promotions
    /// in Knight, Bishop, Rook, Queen order. Returns false, leaving the
    /// chunk alone, once every piece has been visited.
    #[verifier::rlimit(100)]
    pub fn next_chunk(&mut self, t: &Tables, chunk: &mut Vec<Move>) -> (r: bool)
        requires
            old(self).inv(),
            t.wf(),
        ensures
            final(self).inv(),
            final(self).board == old(self).board,
            final(self).captures == old(self).captures,
            r == (old(self).pieces.0.0 != 0),
            !r ==> final(self).pieces == old(self).pieces && final(chunk)@ == old(chunk)@,
            r ==> ({
                let sq = vstd::std_specs::bits::u64_trailing_zeros(old(self).pieces.0.0) as int;
                let p = Piece::spec_from_index((old(self).board.mb(sq) & 7) as int);
                let expect = chunk_fields(old(self).board, p, sq, old(self).captures, 64);
                &&& forall|q: int|
                    #[trigger] bb_has(final(self).pieces.0.0, q) <==> (bb_has(
                        old(self).pieces.0.0,
                        q,
                    ) && q != sq)
                &&& final(chunk)@.len() == expect.len()
                &&& forall|i: int|
                    0 <= i < expect.len() ==> mv_fields(#[trigger] final(chunk)@[i]) == expect[i]
                &&& forall|i: int|
                    0 <= i < final(chunk)@.len() ==> gen_move_ok(
                        old(self).board,
                        #[trigger] final(chunk)@[i],
                        old(self).captures,
                    )
            }),
    {
        let ghost oldp = self.pieces.0.0;
        let square = match self.pieces.next() {
            None => {
                return false;
            },
            Some(s) => s,
        };
        proof {
            vstd::std_specs::bits::axiom_u64_trailing_zeros(oldp);
            let tzv = vstd::std_specs::bits::u64_trailing_zeros(oldp) as int;
            assert(0 <= tzv < 64);
            assert(bb_has(oldp, tzv));
            if square.index() < tzv {
                assert((oldp >> (square.index() as u64)) & 1u64 == 0u64);
                assert(false);
            }
            if square.index() > tzv {
                assert(!bb_has(oldp, tzv));
                assert(false);
            }
            assert(square.index() == tzv);
        }
        let b = self.board;
        let stm = b.side_to_move();
        let pc = b.piece_and_color_on(square);
        let piece = match pc {
            Some(tp) => tp.0,
            None => vstd::pervasive::unreached(),
        };
        let ghost sqi = square.index();
        let targets0 = b.piece_targets(t, stm, piece, square, false);
        let targets: u64 = if self.captures {
            let comb = b.combined();
            proof {
                crate::board::lemma_bb_ops(targets0.0, comb.0);
            }
            targets0.0 & comb.0
        } else {
            targets0.0
        };
        chunk.clear();
        let mut it = Bitboard(targets).iter();
        let ghost gb = b;
        let ghost cap = self.captures;
        let ghost mut k: int = 0;
        proof {
            assert(piece == Piece::spec_from_index((gb.mb(sqi) & 7) as int));
        }
        loop
            invariant_except_break
                0 <= k <= 64,
                forall|j: int|
                    #[trigger] bb_has(it.0.0, j) <==> (chunk_target(gb, piece, sqi, cap, j) && j
                        >= k),
                chunk@.len() == chunk_fields(gb, piece, sqi, cap, k).len(),
                forall|i: int|
                    0 <= i < chunk@.len() ==> mv_fields(#[trigger] chunk@[i]) == chunk_fields(
                        gb,
                        piece,
                        sqi,
                        cap,
                        k,
                    )[i],
            invariant
                gb.wf(),
                gb == self.board,
                cap == self.captures,
                stm == gb.spec_side_to_move(),
                gb.spec_pc_is(sqi, piece, stm),
                sqi == square.index(),
                forall|i: int|
                    0 <= i < chunk@.len() ==> gen_move_ok(gb, #[trigger] chunk@[i], cap),
            ensures
                chunk@.len() == chunk_fields(gb, piece, sqi, cap, 64).len(),
                forall|i: int|
                    0 <= i < chunk@.len() ==> mv_fields(#[trigger] chunk@[i]) == chunk_fields(
                        gb,
                        piece,
                        sqi,
                        cap,
                        64,
                    )[i],
            decreases it.0.0,
        {
            let ghost pre_it = it.0.0;
            let to = match it.next() {
                None => {
                    proof {
                        crate::board::lemma_bb_ops(0, 0);
                        assert forall|j: int| k <= j < 64 implies !chunk_target(
                            gb,
                            piece,
                            sqi,
                            cap,
                            j,
                        ) by {
                            assert(!bb_has(it.0.0, j));
                        }
                        lemma_chunk_fields_skip(gb, piece, sqi, cap, k, 64);
                    }
                    break ;
                },
                Some(s) => s,
            };
            let ghost ti = to.index();
            proof {
                assert(bb_has(pre_it, ti));
                assert(chunk_target(gb, piece, sqi, cap, ti));
                assert(gb.spec_piece_targets(stm, piece, sqi, false, ti));
                assert(!bb_has(gb.spec_colors(stm.index()), ti));
                assert(bb_has(gb.spec_colors(stm.index()), sqi));
                assert(ti != sqi);
                assert forall|j: int| k <= j < ti implies !chunk_target(gb, piece, sqi, cap, j) by {
                    assert(!bb_has(pre_it, j));
                }
                lemma_chunk_fields_skip(gb, piece, sqi, cap, k, ti);
            }
            let tr = to.rank().to_index();
            let promotes = match piece {
                Piece::Pawn => tr == 0 || tr == 7,
                _ => false,
            };
            let ghost pre_chunk = chunk@;
            let ghost fk = chunk_fields(gb, piece, sqi, cap, k);
            let ghost ft1 = chunk_fields(gb, piece, sqi, cap, ti + 1);
            proof {
                assert(ft1 == chunk_fields(gb, piece, sqi, cap, ti) + target_fields(
                    piece,
                    sqi,
                    ti,
                ));
                assert(ft1 == fk + target_fields(piece, sqi, ti));
            }
            if promotes {
                let m1 = Move::new(square, to, Some(Piece::Knight));
                let m2 = Move::new(square, to, Some(Piece::Bishop));
                let m3 = Move::new(square, to, Some(Piece::Rook));
                let m4 = Move::new(square, to, Some(Piece::Queen));
                proof {
                    assert(gen_move_ok(gb, m1, cap));
                    assert(gen_move_ok(gb, m2, cap));
                    assert(gen_move_ok(gb, m3, cap));
                    assert(gen_move_ok(gb, m4, cap));
                }
                chunk.push(m1);
                chunk.push(m2);
                chunk.push(m3);
                chunk.push(m4);
                proof {
                    assert(chunk@ =~= pre_chunk + seq![m1, m2, m3, m4]);
                    assert forall|i: int| 0 <= i < chunk@.len() implies mv_fields(
                        #[trigger] chunk@[i],
                    ) == ft1[i] by {
                        if i < pre_chunk.len() {
                            assert(chunk@[i] == pre_chunk[i]);
                            assert(mv_fields(chunk@[i]) == fk[i]);
                        } else {
                            let d = i - pre_chunk.len();
                            assert(ft1[i] == target_fields(piece, sqi, ti)[d]);
                            if d == 0 {
                                assert(chunk@[i] == m1);
                                assert(mv_fields(m1) == (sqi, ti, Some(Piece::Knight)));
                            } else if d == 1 {
                                assert(chunk@[i] == m2);
                                assert(mv_fields(m2) == (sqi, ti, Some(Piece::Bishop)));
                            } else if d == 2 {
                                assert(chunk@[i] == m3);
                                assert(mv_fields(m3) == (sqi, ti, Some(Piece::Rook)));
                            } else {
                                assert(chunk@[i] == m4);
                                assert(mv_fields(m4) == (sqi, ti, Some(Piece::Queen)));
                            }
                        }
                    }
                }
            } else {
                let m = Move::new(square, to, None);
                proof {
                    assert(gen_move_ok(gb, m, cap));
                }
                chunk.push(m);
                proof {
                    assert(chunk@ =~= pre_chunk + seq![m]);
                    assert forall|i: int| 0 <= i < chunk@.len() implies mv_fields(
                        #[trigger] chunk@[i],
                    ) == ft1[i] by {
                        if i < pre_chunk.len() {
                            assert(chunk@[i] == pre_chunk[i]);
                            assert(mv_fields(chunk@[i]) == fk[i]);
                        } else {
                            assert(chunk@[i] == m);
                            assert(ft1[i] == target_fields(piece, sqi, ti)[0]);
                            assert(mv_fields(m) == (sqi, ti, None::<Piece>));
                        }
                    }
                }
            }
            proof {
                k = ti + 1;
                assert forall|j: int| #[trigger]
                    bb_has(it.0.0, j) <==> (chunk_target(gb, piece, sqi, cap, j) && j >= k) by {
                    assert(bb_has(it.0.0, j) <==> (bb_has(pre_it, j) && j != ti));
                }
            }
        }
        true
    }
}

/// The legality filter's own correctness property: a position reached by a
/// surviving pseudo-legal move reports no check against the color that just
/// moved. Applying a move passes the turn, so "not illegal" — no check
/// against the side now resting — is exactly "the mover's king is safe".
pub proof fn lemma_filtered_move_safe(b1: Board, b2: Board)
    requires
        b2.spec_side_to_move() == b1.spec_side_to_move().spec_not(),
        !b2.spec_side_check(b2.spec_side_to_move().spec_not()),
    ensures
        !b2.spec_side_check(b1.spec_side_to_move()),
{
}

/// Capture-only generation selects exactly the full generator's targets
/// that land on occupied squares, so the capture-mode chunks are precisely
/// the occupied-destination part of the full chunks.
pub proof fn lemma_captures_exact(b: Board, p: Piece, s: int, j: int)
    ensures
        chunk_target(b, p, s, true, j) == (chunk_target(b, p, s, false, j) && bb_has(
            b.spec_occ(),
            j,
        )),
{
}

/// Capture-only generation is a restriction of full generation: every sound
/// capture-mode move is a sound full-mode move whose destination square is
/// occupied in the pre-move position.
pub proof fn lemma_captures_subset(b: Board, m: Move)
    requires
        gen_move_ok(b, m, true),
    ensures
        gen_move_ok(b, m, false),
        bb_has(b.spec_occ(), m.spec_to()),
{
    let p = choose|p: Piece|
        {
            &&& #[trigger] b.spec_pc_is(m.spec_from(), p, b.spec_side_to_move())
            &&& b.spec_piece_targets(b.spec_side_to_move(), p, m.spec_from(), false, m.spec_to())
            &&& (true ==> bb_has(b.spec_occ(), m.spec_to()))
            &&& (m.spec_promotion() is Some <==> (p == Piece::Pawn && (m.spec_to() / 8 == 0
                || m.spec_to() / 8 == 7)))
        };
    assert(b.spec_pc_is(m.spec_from(), p, b.spec_side_to_move()));
}

} // verus!
