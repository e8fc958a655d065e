use vstd::prelude::*;
use vstd::string::StringSliceAdditionalSpecFns;
use crate::bitboard::{bb_has, Bitboard};
use crate::board::{encode_pc, lemma_bb_ops, Board};
use crate::castle_rights::CastleRights;
use crate::color::Color;
use crate::piece::Piece;
use crate::square::Square;

verus! {

impl Board {
    /// Whether the piece on square `i` has color `c`.
    pub open spec fn spec_has_color(self, i: int, c: Color) -> bool {
        0 <= i < 64 && match self.spec_piece_at(i) {
            Some(t) => t.1 == c,
            None => false,
        }
    }

    /// Whether the piece on square `i` is of kind `p`.
    pub open spec fn spec_has_piece(self, i: int, p: Piece) -> bool {
        0 <= i < 64 && match self.spec_piece_at(i) {
            Some(t) => t.0 == p,
            None => false,
        }
    }

    /// Whether square `i` holds exactly the piece `p` of color `c`.
    pub open spec fn spec_pc_is(self, i: int, p: Piece, c: Color) -> bool {
        0 <= i < 64 && self.spec_piece_at(i) == Some((p, c))
    }
}

/// The color bitboard of a well-formed board holds exactly the squares of
/// that color's pieces.
pub proof fn lemma_color_bb(b: Board, c: Color)
    requires
        b.wf(),
    ensures
        forall|i: int| #[trigger] bb_has(b.spec_colors(c.index()), i) <==> b.spec_has_color(i, c),
{
}

/// The piece bitboard of a well-formed board holds exactly the squares of
/// that piece kind.
pub proof fn lemma_piece_bb(b: Board, p: Piece)
    requires
        b.wf(),
    ensures
        forall|i: int| #[trigger] bb_has(b.spec_pieces(p.index()), i) <==> b.spec_has_piece(i, p),
{
    assert forall|i: int| #[trigger]
        bb_has(b.spec_pieces(p.index()), i) <==> b.spec_has_piece(i, p) by {
        if 0 <= i < 64 {
            assert(bb_has(b.spec_pieces(p.index()), i) <==> (b.mb(i) != 0 && (b.mb(i) & 7)
                == p.index()));
        }
    }
}

impl Board {
    /// Get the side to move.
    pub fn side_to_move(&self) -> (r: Color)
        ensures
            r == self.spec_side_to_move(),
    {
        self.side_to_move_field()
    }

    /// Get the piece and color on a given square.
    pub fn piece_and_color_on(&self, square: Square) -> (r: Option<(Piece, Color)>)
        requires
            self.wf(),
        ensures
            r == self.spec_piece_at(square.index()),
    {
        self.read_square(square)
    }

    /// Get the piece on a given square.
    pub fn piece_on(&self, square: Square) -> (r: Option<Piece>)
        requires
            self.wf(),
        ensures
            r == match self.spec_piece_at(square.index()) {
                Some(t) => Some(t.0),
                None => None::<Piece>,
            },
    {
        match self.read_square(square) {
            Some(t) => Some(t.0),
            None => None,
        }
    }

    /// Get the color of the piece on a given square.
    pub fn color_on(&self, square: Square) -> (r: Option<Color>)
        requires
            self.wf(),
        ensures
            r == match self.spec_piece_at(square.index()) {
                Some(t) => Some(t.1),
                None => None::<Color>,
            },
    {
        match self.read_square(square) {
            Some(t) => Some(t.1),
            None => None,
        }
    }

    /// All pieces combined in a bitboard.
    pub fn combined(&self) -> (r: Bitboard)
        requires
            self.wf(),
        ensures
            r.0 == self.spec_colors(0) | self.spec_colors(1),
            forall|i: int| #[trigger] bb_has(r.0, i) <==> (0 <= i < 64 && self.spec_occupied(i)),
    {
        proof {
            lemma_bb_ops(self.spec_colors(0), self.spec_colors(1));
        }
        Bitboard(self.colors_field(0).0 | self.colors_field(1).0)
    }

    /// All pieces that belongs to the specified color.
    pub fn color_combined(&self, color: Color) -> (r: Bitboard)
        requires
            self.wf(),
        ensures
            r.0 == self.spec_colors(color.index()),
            forall|i: int| #[trigger] bb_has(r.0, i) <==> self.spec_has_color(i, color),
    {
        proof {
            lemma_color_bb(*self, color);
        }
        self.colors_field(color.to_index())
    }

    /// All squares with the specified piece.
    pub fn piece_combined(&self, piece: Piece) -> (r: Bitboard)
        requires
            self.wf(),
        ensures
            r.0 == self.spec_pieces(piece.index()),
            forall|i: int| #[trigger] bb_has(r.0, i) <==> self.spec_has_piece(i, piece),
    {
        proof {
            lemma_piece_bb(*self, piece);
        }
        self.pieces_field(piece.to_index())
    }

    /// All pieces that belongs to white.
    pub fn white_pieces(&self) -> (r: Bitboard)
        requires
            self.wf(),
        ensures
            forall|i: int| #[trigger] bb_has(r.0, i) <==> self.spec_has_color(i, Color::White),
    {
        self.color_combined(Color::White)
    }

    /// All pieces that belongs to black.
    pub fn black_pieces(&self) -> (r: Bitboard)
        requires
            self.wf(),
        ensures
            forall|i: int| #[trigger] bb_has(r.0, i) <==> self.spec_has_color(i, Color::Black),
    {
        self.color_combined(Color::Black)
    }

    /// All pieces that belongs to the side to move.
    pub fn our_pieces(&self) -> (r: Bitboard)
        requires
            self.wf(),
        ensures
            forall|i: int|
                #[trigger] bb_has(r.0, i) <==> self.spec_has_color(i, self.spec_side_to_move()),
    {
        self.color_combined(self.side_to_move())
    }

    /// All pieces that belongs to the side not to move.
    pub fn their_pieces(&self) -> (r: Bitboard)
        requires
            self.wf(),
        ensures
            forall|i: int|
                #[trigger] bb_has(r.0, i) <==> self.spec_has_color(
                    i,
                    self.spec_side_to_move().spec_not(),
                ),
    {
        self.color_combined(self.side_to_move().not())
    }

    /// All pawns on the board.
    pub fn pawns(&self) -> (r: Bitboard)
        requires
            self.wf(),
        ensures
            forall|i: int| #[trigger] bb_has(r.0, i) <==> self.spec_has_piece(i, Piece::Pawn),
    {
        self.piece_combined(Piece::Pawn)
    }

    /// All knights on the board.
    pub fn knights(&self) -> (r: Bitboard)
        requires
            self.wf(),
        ensures
            forall|i: int| #[trigger] bb_has(r.0, i) <==> self.spec_has_piece(i, Piece::Knight),
    {
        self.piece_combined(Piece::Knight)
    }

    /// All bishops on the board.
    pub fn bishops(&self) -> (r: Bitboard)
        requires
            self.wf(),
        ensures
            forall|i: int| #[trigger] bb_has(r.0, i) <==> self.spec_has_piece(i, Piece::Bishop),
    {
        self.piece_combined(Piece::Bishop)
    }

    /// All rooks on the board.
    pub fn rooks(&self) -> (r: Bitboard)
        requires
            self.wf(),
        ensures
            forall|i: int| #[trigger] bb_has(r.0, i) <==> self.spec_has_piece(i, Piece::Rook),
    {
        self.piece_combined(Piece::Rook)
    }

    /// All queens on the board.
    pub fn queens(&self) -> (r: Bitboard)
        requires
            self.wf(),
        ensures
            forall|i: int| #[trigger] bb_has(r.0, i) <==> self.spec_has_piece(i, Piece::Queen),
    {
        self.piece_combined(Piece::Queen)
    }

    /// All kings on the board.
    pub fn kings(&self) -> (r: Bitboard)
        requires
            self.wf(),
        ensures
            forall|i: int| #[trigger] bb_has(r.0, i) <==> self.spec_has_piece(i, Piece::King),
    {
        self.piece_combined(Piece::King)
    }

    /// All of the pawns on the board that belongs to the side passed in.
    pub fn pawns_of(&self, color: Color) -> (r: Bitboard)
        requires
            self.wf(),
        ensures
            forall|i: int| #[trigger] bb_has(r.0, i) <==> self.spec_pc_is(i, Piece::Pawn, color),
    {
        proof {
            lemma_piece_bb(*self, Piece::Pawn);
            lemma_color_bb(*self, color);
            lemma_bb_ops(self.spec_pieces(Piece::Pawn.index()), self.spec_colors(color.index()));
        }
        Bitboard(self.pieces_field(Piece::Pawn.to_index()).0 & self.colors_field(color.to_index()).0)
    }

    /// All of the knights on the board that belongs to the side passed in.
    pub fn knights_of(&self, color: Color) -> (r: Bitboard)
        requires
            self.wf(),
        ensures
            forall|i: int| #[trigger] bb_has(r.0, i) <==> self.spec_pc_is(i, Piece::Knight, color),
    {
        proof {
            lemma_piece_bb(*self, Piece::Knight);
            lemma_color_bb(*self, color);
            lemma_bb_ops(self.spec_pieces(Piece::Knight.index()), self.spec_colors(color.index()));
        }
        Bitboard(self.pieces_field(Piece::Knight.to_index()).0 & self.colors_field(color.to_index()).0)
    }

    /// All of the bishops on the board that belongs to the side passed in.
    pub fn bishops_of(&self, color: Color) -> (r: Bitboard)
        requires
            self.wf(),
        ensures
            forall|i: int| #[trigger] bb_has(r.0, i) <==> self.spec_pc_is(i, Piece::Bishop, color),
    {
        proof {
            lemma_piece_bb(*self, Piece::Bishop);
            lemma_color_bb(*self, color);
            lemma_bb_ops(self.spec_pieces(Piece::Bishop.index()), self.spec_colors(color.index()));
        }
        Bitboard(self.pieces_field(Piece::Bishop.to_index()).0 & self.colors_field(color.to_index()).0)
    }

    /// All of the rooks on the board that belongs to the side passed in.
    pub fn rooks_of(&self, color: Color) -> (r: Bitboard)
        requires
            self.wf(),
        ensures
            forall|i: int| #[trigger] bb_has(r.0, i) <==> self.spec_pc_is(i, Piece::Rook, color),
    {
        proof {
            lemma_piece_bb(*self, Piece::Rook);
            lemma_color_bb(*self, color);
            lemma_bb_ops(self.spec_pieces(Piece::Rook.index()), self.spec_colors(color.index()));
        }
        Bitboard(self.pieces_field(Piece::Rook.to_index()).0 & self.colors_field(color.to_index()).0)
    }

    /// All of the queens on the board that belongs to the side passed in.
    pub fn queens_of(&self, color: Color) -> (r: Bitboard)
        requires
            self.wf(),
        ensures
            forall|i: int| #[trigger] bb_has(r.0, i) <==> self.spec_pc_is(i, Piece::Queen, color),
    {
        proof {
            lemma_piece_bb(*self, Piece::Queen);
            lemma_color_bb(*self, color);
            lemma_bb_ops(self.spec_pieces(Piece::Queen.index()), self.spec_colors(color.index()));
        }
        Bitboard(self.pieces_field(Piece::Queen.to_index()).0 & self.colors_field(color.to_index()).0)
    }

    /// All of our's pawns on the board.
    pub fn our_pawns(&self) -> (r: Bitboard)
        requires
            self.wf(),
        ensures
            forall|i: int| #[trigger] bb_has(r.0, i) <==> self.spec_pc_is(i, Piece::Pawn, self.spec_side_to_move()),
    {
        self.pawns_of(self.side_to_move())
    }

    /// All of our's knights on the board.
    pub fn our_knights(&self) -> (r: Bitboard)
        requires
            self.wf(),
        ensures
            forall|i: int| #[trigger] bb_has(r.0, i) <==> self.spec_pc_is(i, Piece::Knight, self.spec_side_to_move()),
    {
        self.knights_of(self.side_to_move())
    }

    /// All of our's bishops on the board.
    pub fn our_bishops(&self) -> (r: Bitboard)
        requires
            self.wf(),
        ensures
            forall|i: int| #[trigger] bb_has(r.0, i) <==> self.spec_pc_is(i, Piece::Bishop, self.spec_side_to_move()),
    {
        self.bishops_of(self.side_to_move())
    }

    /// All of our's rooks on the board.
    pub fn our_rooks(&self) -> (r: Bitboard)
        requires
            self.wf(),
        ensures
            forall|i: int| #[trigger] bb_has(r.0, i) <==> self.spec_pc_is(i, Piece::Rook, self.spec_side_to_move()),
    {
        self.rooks_of(self.side_to_move())
    }

    /// All of our's queens on the board.
    pub fn our_queens(&self) -> (r: Bitboard)
        requires
            self.wf(),
        ensures
            forall|i: int| #[trigger] bb_has(r.0, i) <==> self.spec_pc_is(i, Piece::Queen, self.spec_side_to_move()),
    {
        self.queens_of(self.side_to_move())
    }

    /// All of their's pawns on the board.
    pub fn their_pawns(&self) -> (r: Bitboard)
        requires
            self.wf(),
        ensures
            forall|i: int| #[trigger] bb_has(r.0, i) <==> self.spec_pc_is(i, Piece::Pawn, self.spec_side_to_move().spec_not()),
    {
        self.pawns_of(self.side_to_move().not())
    }

    /// All of their's knights on the board.
    pub fn their_knights(&self) -> (r: Bitboard)
        requires
            self.wf(),
        ensures
            forall|i: int| #[trigger] bb_has(r.0, i) <==> self.spec_pc_is(i, Piece::Knight, self.spec_side_to_move().spec_not()),
    {
        self.knights_of(self.side_to_move().not())
    }

    /// All of their's bishops on the board.
    pub fn their_bishops(&self) -> (r: Bitboard)
        requires
            self.wf(),
        ensures
            forall|i: int| #[trigger] bb_has(r.0, i) <==> self.spec_pc_is(i, Piece::Bishop, self.spec_side_to_move().spec_not()),
    {
        self.bishops_of(self.side_to_move().not())
    }

    /// All of their's rooks on the board.
    pub fn their_rooks(&self) -> (r: Bitboard)
        requires
            self.wf(),
        ensures
            forall|i: int| #[trigger] bb_has(r.0, i) <==> self.spec_pc_is(i, Piece::Rook, self.spec_side_to_move().spec_not()),
    {
        self.rooks_of(self.side_to_move().not())
    }

    /// All of their's queens on the board.
    pub fn their_queens(&self) -> (r: Bitboard)
        requires
            self.wf(),
        ensures
            forall|i: int| #[trigger] bb_has(r.0, i) <==> self.spec_pc_is(i, Piece::Queen, self.spec_side_to_move().spec_not()),
    {
        self.queens_of(self.side_to_move().not())
    }

    /// All of white's pawns on the board.
    pub fn white_pawns(&self) -> (r: Bitboard)
        requires
            self.wf(),
        ensures
            forall|i: int| #[trigger] bb_has(r.0, i) <==> self.spec_pc_is(i, Piece::Pawn, Color::White),
    {
        self.pawns_of(Color::White)
    }

    /// All of white's knights on the board.
    pub fn white_knights(&self) -> (r: Bitboard)
        requires
            self.wf(),
        ensures
            forall|i: int| #[trigger] bb_has(r.0, i) <==> self.spec_pc_is(i, Piece::Knight, Color::White),
    {
        self.knights_of(Color::White)
    }

    /// All of white's bishops on the board.
    pub fn white_bishops(&self) -> (r: Bitboard)
        requires
            self.wf(),
        ensures
            forall|i: int| #[trigger] bb_has(r.0, i) <==> self.spec_pc_is(i, Piece::Bishop, Color::White),
    {
        self.bishops_of(Color::White)
    }

    /// All of white's rooks on the board.
    pub fn white_rooks(&self) -> (r: Bitboard)
        requires
            self.wf(),
        ensures
            forall|i: int| #[trigger] bb_has(r.0, i) <==> self.spec_pc_is(i, Piece::Rook, Color::White),
    {
        self.rooks_of(Color::White)
    }

    /// All of white's queens on the board.
    pub fn white_queens(&self) -> (r: Bitboard)
        requires
            self.wf(),
        ensures
            forall|i: int| #[trigger] bb_has(r.0, i) <==> self.spec_pc_is(i, Piece::Queen, Color::White),
    {
        self.queens_of(Color::White)
    }

    /// All of black's pawns on the board.
    pub fn black_pawns(&self) -> (r: Bitboard)
        requires
            self.wf(),
        ensures
            forall|i: int| #[trigger] bb_has(r.0, i) <==> self.spec_pc_is(i, Piece::Pawn, Color::Black),
    {
        self.pawns_of(Color::Black)
    }

    /// All of black's knights on the board.
    pub fn black_knights(&self) -> (r: Bitboard)
        requires
            self.wf(),
        ensures
            forall|i: int| #[trigger] bb_has(r.0, i) <==> self.spec_pc_is(i, Piece::Knight, Color::Black),
    {
        self.knights_of(Color::Black)
    }

    /// All of black's bishops on the board.
    pub fn black_bishops(&self) -> (r: Bitboard)
        requires
            self.wf(),
        ensures
            forall|i: int| #[trigger] bb_has(r.0, i) <==> self.spec_pc_is(i, Piece::Bishop, Color::Black),
    {
        self.bishops_of(Color::Black)
    }

    /// All of black's rooks on the board.
    pub fn black_rooks(&self) -> (r: Bitboard)
        requires
            self.wf(),
        ensures
            forall|i: int| #[trigger] bb_has(r.0, i) <==> self.spec_pc_is(i, Piece::Rook, Color::Black),
    {
        self.rooks_of(Color::Black)
    }

    /// All of black's queens on the board.
    pub fn black_queens(&self) -> (r: Bitboard)
        requires
            self.wf(),
        ensures
            forall|i: int| #[trigger] bb_has(r.0, i) <==> self.spec_pc_is(i, Piece::Queen, Color::Black),
    {
        self.queens_of(Color::Black)
    }

    /// The king on the board that belongs to the side passed in.
    pub fn king_of(&self, color: Color) -> (r: Square)
        requires
            self.wf(),
            self.kings_ok_for(color.index()),
        ensures
            r.index() == self.spec_king_sq(color.index()),
            self.spec_pc_is(r.index(), Piece::King, color),
    {
        proof {
            lemma_piece_bb(*self, Piece::King);
            lemma_color_bb(*self, color);
            lemma_bb_ops(self.spec_pieces(5), self.spec_colors(color.index()));
            let c = color.index();
            let k = choose|k: int|
                0 <= k < 64 && #[trigger] self.mb(k) == encode_pc(5, c) && forall|j: int|
                    0 <= j < 64 && j != k ==> #[trigger] self.mb(j) != encode_pc(5, c);
            crate::board::lemma_encode_pc(5, c);
            assert(self.spec_pc_is(k, Piece::King, color));
            assert(bb_has(self.spec_pieces(5) & self.spec_colors(c), k));
            crate::board::lemma_bb_nonzero(self.spec_pieces(5) & self.spec_colors(c), k);
        }
        let bb = Bitboard(
            self.pieces_field(Piece::King.to_index()).0 & self.colors_field(color.to_index()).0,
        );
        match bb.first_square() {
            Some(s) => {
                proof {
                    let c = color.index();
                    assert(self.spec_pc_is(s.index(), Piece::King, color));
                    crate::board::lemma_encode_pc(5, c);
                    crate::board::lemma_mb_decode(self.mb(s.index()));
                    assert(self.mb(s.index()) == encode_pc(5, c));
                }
                s
            },
            None => vstd::pervasive::unreached(),
        }
    }

    /// Side to move's king on the board.
    pub fn our_king(&self) -> (r: Square)
        requires
            self.wf(),
            self.kings_ok_for(self.spec_side_to_move().index()),
        ensures
            r.index() == self.spec_king_sq(self.spec_side_to_move().index()),
            self.spec_pc_is(r.index(), Piece::King, self.spec_side_to_move()),
    {
        self.king_of(self.side_to_move())
    }

    /// Side to move's opponent's king on the board.
    pub fn their_king(&self) -> (r: Square)
        requires
            self.wf(),
            self.kings_ok_for(self.spec_side_to_move().spec_not().index()),
        ensures
            r.index() == self.spec_king_sq(self.spec_side_to_move().spec_not().index()),
            self.spec_pc_is(r.index(), Piece::King, self.spec_side_to_move().spec_not()),
    {
        self.king_of(self.side_to_move().not())
    }

    /// White's king on the board.
    pub fn white_king(&self) -> (r: Square)
        requires
            self.wf(),
            self.kings_ok_for(0),
        ensures
            r.index() == self.spec_king_sq(0),
            self.spec_pc_is(r.index(), Piece::King, Color::White),
    {
        self.king_of(Color::White)
    }

    /// Black's king on the board.
    pub fn black_king(&self) -> (r: Square)
        requires
            self.wf(),
            self.kings_ok_for(1),
        ensures
            r.index() == self.spec_king_sq(1),
            self.spec_pc_is(r.index(), Piece::King, Color::Black),
    {
        self.king_of(Color::Black)
    }

    /// Get the castle rights of a side.
    pub fn castle_rights_of(&self, color: Color) -> (r: CastleRights)
        ensures
            r == self.spec_castle_rights(color.index()),
    {
        self.castle_rights_field(color.to_index())
    }

    /// Get the castle rights of white.
    pub fn white_castle_rights(&self) -> (r: CastleRights)
        ensures
            r == self.spec_castle_rights(0),
    {
        self.castle_rights_of(Color::White)
    }

    /// Get the castle rights of black.
    pub fn black_castle_rights(&self) -> (r: CastleRights)
        ensures
            r == self.spec_castle_rights(1),
    {
        self.castle_rights_of(Color::Black)
    }

    /// Get the castle rights of the side to move.
    pub fn our_castle_rights(&self) -> (r: CastleRights)
        ensures
            r == self.spec_castle_rights(self.spec_side_to_move().index()),
    {
        self.castle_rights_of(self.side_to_move())
    }

    /// Get the castle rights of the side to move's opponent.
    pub fn their_castle_rights(&self) -> (r: CastleRights)
        ensures
            r == self.spec_castle_rights(self.spec_side_to_move().spec_not().index()),
    {
        self.castle_rights_of(self.side_to_move().not())
    }
}

impl Default for Board {
    /// The standard chess starting position; an empty board in the
    /// (impossible) event that the baked starting notation fails to parse.
    fn default() -> (r: Board)
        ensures
            r.wf(),
            ({
                let parsed = crate::board::epd::spec_parse_epd(
                    "rnbqkbnr/pppppppp/8/8/8/8/PPPPPPPP/RNBQKBNR w KQkq -".spec_bytes(),
                );
                parsed is Ok ==> crate::board::epd::board_matches(r, parsed->Ok_0)
            }),
    {
        match Board::from_epd(false, "rnbqkbnr/pppppppp/8/8/8/8/PPPPPPPP/RNBQKBNR w KQkq -") {
            Ok(b) => b,
            Err(_) => Board::empty(),
        }
    }
}

} // verus!
