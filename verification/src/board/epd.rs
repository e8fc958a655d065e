use vstd::prelude::*;
use vstd::string::StringSliceAdditionalSpecFns;
use crate::board::{encode_pc, Board};
use crate::color::Color;
use crate::piece::Piece;
use crate::square::{File, Rank};

verus! {

/// An error while decoding an EPD string.
#[derive(Clone, Copy, Debug, PartialEq, Eq, Structural)]
pub enum EpdError {
    UnexpectedChar(char),
    UnexpectedEnd,
    TooMuchPieces { rank: Rank },
    TooLittleRanks { last_rank: Rank },
}

/// The state an EPD or FEN string decodes to: the mailbox of the placement,
/// the side to move, the four castling flags, the en-passant file, and the
/// index just past the consumed prefix.
pub struct EpdState {
    pub mb: Seq<u8>,
    pub side: Color,
    pub wk: bool,
    pub wq: bool,
    pub bk: bool,
    pub bq: bool,
    pub ep: Option<File>,
    pub next: int,
}

/// The piece and color a notation character stands for, if any.
pub open spec fn piece_of_char(ch: u8) -> Option<(Piece, Color)> {
    if ch == 80 {  // P
        Some((Piece::Pawn, Color::White))
    } else if ch == 112 {  // p
        Some((Piece::Pawn, Color::Black))
    } else if ch == 78 {  // N
        Some((Piece::Knight, Color::White))
    } else if ch == 110 {  // n
        Some((Piece::Knight, Color::Black))
    } else if ch == 66 {  // B
        Some((Piece::Bishop, Color::White))
    } else if ch == 98 {  // b
        Some((Piece::Bishop, Color::Black))
    } else if ch == 82 {  // R
        Some((Piece::Rook, Color::White))
    } else if ch == 114 {  // r
        Some((Piece::Rook, Color::Black))
    } else if ch == 81 {  // Q
        Some((Piece::Queen, Color::White))
    } else if ch == 113 {  // q
        Some((Piece::Queen, Color::Black))
    } else if ch == 75 {  // K
        Some((Piece::King, Color::White))
    } else if ch == 107 {  // k
        Some((Piece::King, Color::Black))
    } else {
        None
    }
}

/// Decode the placement part of the notation: ranks from the eighth down to
/// the first, files left to right, a digit standing for that many empty
/// squares, `/` separating ranks, a space ending the description.
pub open spec fn parse_placement(s: Seq<u8>, i: int, rank: int, file: int, mb: Seq<u8>) -> Result<
    EpdState,
    EpdError,
>
    decreases s.len() - i,
{
    if i < 0 || i >= s.len() {
        Err(EpdError::UnexpectedEnd)
    } else {
        let ch = s[i];
        if 49 <= ch <= 56 {  // '1' to '8'
            let nf = file + (ch - 48);
            if nf > 8 {
                Err(EpdError::TooMuchPieces { rank: Rank::spec_from_index(rank) })
            } else {
                parse_placement(s, i + 1, rank, nf, mb)
            }
        } else if piece_of_char(ch) is Some {
            let pc = piece_of_char(ch)->Some_0;
            if file >= 8 {
                Err(EpdError::TooMuchPieces { rank: Rank::spec_from_index(rank) })
            } else {
                parse_placement(
                    s,
                    i + 1,
                    rank,
                    file + 1,
                    mb.update(rank * 8 + file, encode_pc(pc.0.index(), pc.1.index())),
                )
            }
        } else if ch == 32 {  // space
            if rank == 0 {
                parse_side(s, i + 1, mb)
            } else {
                Err(EpdError::TooLittleRanks { last_rank: Rank::spec_from_index(rank) })
            }
        } else if ch == 47 {  // '/'
            if rank == 0 {
                parse_side(s, i + 1, mb)
            } else {
                parse_placement(s, i + 1, rank - 1, 0, mb)
            }
        } else {
            Err(EpdError::UnexpectedChar(ch as char))
        }
    }
}

/// Decode the side-to-move token, `w` or `b`, and the space after it.
pub open spec fn parse_side(s: Seq<u8>, i: int, mb: Seq<u8>) -> Result<EpdState, EpdError> {
    if i >= s.len() {
        Err(EpdError::UnexpectedEnd)
    } else if s[i] == 119 {  // 'w'
        parse_side_space(s, i + 1, mb, Color::White)
    } else if s[i] == 98 {  // 'b'
        parse_side_space(s, i + 1, mb, Color::Black)
    } else {
        Err(EpdError::UnexpectedChar(s[i] as char))
    }
}

/// Decode the space after the side-to-move token.
pub open spec fn parse_side_space(s: Seq<u8>, i: int, mb: Seq<u8>, side: Color) -> Result<
    EpdState,
    EpdError,
> {
    if i >= s.len() {
        Err(EpdError::UnexpectedEnd)
    } else if s[i] == 32 {
        parse_castle(s, i + 1, mb, side, false, false, false, false)
    } else {
        Err(EpdError::UnexpectedChar(s[i] as char))
    }
}

/// Decode the castling-rights token set, drawn from `K`, `Q`, `k`, `q` and
/// `-`, ended by a space.
pub open spec fn parse_castle(
    s: Seq<u8>,
    i: int,
    mb: Seq<u8>,
    side: Color,
    wk: bool,
    wq: bool,
    bk: bool,
    bq: bool,
) -> Result<EpdState, EpdError>
    decreases s.len() - i,
{
    if i < 0 || i >= s.len() {
        Err(EpdError::UnexpectedEnd)
    } else {
        let ch = s[i];
        if ch == 75 {  // 'K'
            parse_castle(s, i + 1, mb, side, true, wq, bk, bq)
        } else if ch == 81 {  // 'Q'
            parse_castle(s, i + 1, mb, side, wk, true, bk, bq)
        } else if ch == 107 {  // 'k'
            parse_castle(s, i + 1, mb, side, wk, wq, true, bq)
        } else if ch == 113 {  // 'q'
            parse_castle(s, i + 1, mb, side, wk, wq, bk, true)
        } else if ch == 32 {  // space
            parse_ep(s, i + 1, mb, side, wk, wq, bk, bq)
        } else if ch == 45 {  // '-'
            if i + 1 >= s.len() {
                Err(EpdError::UnexpectedEnd)
            } else if s[i + 1] == 32 {
                parse_ep(s, i + 2, mb, side, wk, wq, bk, bq)
            } else {
                Err(EpdError::UnexpectedChar(s[i + 1] as char))
            }
        } else {
            Err(EpdError::UnexpectedChar(ch as char))
        }
    }
}

/// Decode the en-passant token: a file letter or `-`. Anything after it is
/// not part of the EPD core and is ignored.
pub open spec fn parse_ep(
    s: Seq<u8>,
    i: int,
    mb: Seq<u8>,
    side: Color,
    wk: bool,
    wq: bool,
    bk: bool,
    bq: bool,
) -> Result<EpdState, EpdError> {
    if i >= s.len() {
        Err(EpdError::UnexpectedEnd)
    } else if 97 <= s[i] <= 104 {  // 'a' to 'h'
        Ok(
            EpdState {
                mb,
                side,
                wk,
                wq,
                bk,
                bq,
                ep: Some(File::spec_from_index(s[i] - 97)),
                next: i + 1,
            },
        )
    } else if s[i] == 45 {  // '-'
        Ok(EpdState { mb, side, wk, wq, bk, bq, ep: None, next: i + 1 })
    } else {
        Err(EpdError::UnexpectedChar(s[i] as char))
    }
}

/// Decode a whole EPD byte string.
pub open spec fn spec_parse_epd(s: Seq<u8>) -> Result<EpdState, EpdError> {
    parse_placement(s, 0, 7, 0, Seq::new(64, |j: int| 0u8))
}

/// Whether a board holds exactly the fields of a decoded state.
pub open spec fn board_matches(b: Board, st: EpdState) -> bool {
    &&& forall|i: int| 0 <= i < 64 ==> #[trigger] b.mb(i) == st.mb[i]
    &&& b.spec_side_to_move() == st.side
    &&& b.spec_castle_rights(0).spec_king_side() == st.wk
    &&& b.spec_castle_rights(0).spec_queen_side() == st.wq
    &&& b.spec_castle_rights(1).spec_king_side() == st.bk
    &&& b.spec_castle_rights(1).spec_queen_side() == st.bq
    &&& b.spec_en_passant() == st.ep
}

impl Board {
    /// Parse an EPD string into a board, together with the index just past
    /// the consumed prefix.
    pub(crate) fn parse_epd_bytes(s: &[u8]) -> (r: Result<(Board, usize), EpdError>)
        ensures
            match r {
                Ok(t) => {
                    &&& spec_parse_epd(s@) is Ok
                    &&& board_matches(t.0, spec_parse_epd(s@)->Ok_0)
                    &&& t.0.wf()
                    &&& t.1 == spec_parse_epd(s@)->Ok_0.next
                },
                Err(e) => spec_parse_epd(s@) == Err::<EpdState, EpdError>(e),
            },
    {
        let mut board = Board::empty();
        let ghost mb0 = Seq::new(64, |j: int| 0u8);
        proof {
            assert(Seq::new(64, |j: int| board.mb(j)) =~= mb0);
        }
        let mut i: usize = 0;
        let mut rank: u8 = 7;
        let mut file: u8 = 0;
        loop
            invariant_except_break
                spec_parse_epd(s@) == parse_placement(
                    s@,
                    i as int,
                    rank as int,
                    file as int,
                    Seq::new(64, |j: int| board.mb(j)),
                ),
            invariant
                board.wf(),
                i <= s@.len(),
                rank < 8,
                file <= 8,
                board.spec_side_to_move() == Color::Black,
                !board.spec_castle_rights(0).spec_king_side(),
                !board.spec_castle_rights(0).spec_queen_side(),
                !board.spec_castle_rights(1).spec_king_side(),
                !board.spec_castle_rights(1).spec_queen_side(),
                board.spec_en_passant() is None,
            ensures
                spec_parse_epd(s@) == parse_side(s@, i as int, Seq::new(64, |j: int| board.mb(j))),
            decreases s@.len() - i,
        {
            let ghost mbc = Seq::new(64, |j: int| board.mb(j));
            if i >= s.len() {
                return Err(EpdError::UnexpectedEnd);
            }
            let ch = s[i];
            if 49 <= ch && ch <= 56 {
                let nf = file + (ch - 48);
                if nf > 8 {
                    return Err(EpdError::TooMuchPieces { rank: Rank::from_index(rank) });
                }
                file = nf;
                i = i + 1;
            } else if ch == 32 {
                if rank == 0 {
                    i = i + 1;
                    break ;
                }
                return Err(EpdError::TooLittleRanks { last_rank: Rank::from_index(rank) });
            } else if ch == 47 {
                if rank == 0 {
                    i = i + 1;
                    break ;
                }
                rank = rank - 1;
                file = 0;
                i = i + 1;
            } else {
                let pc = match ch {
                    80 => Some((Piece::Pawn, Color::White)),
                    112 => Some((Piece::Pawn, Color::Black)),
                    78 => Some((Piece::Knight, Color::White)),
                    110 => Some((Piece::Knight, Color::Black)),
                    66 => Some((Piece::Bishop, Color::White)),
                    98 => Some((Piece::Bishop, Color::Black)),
                    82 => Some((Piece::Rook, Color::White)),
                    114 => Some((Piece::Rook, Color::Black)),
                    81 => Some((Piece::Queen, Color::White)),
                    113 => Some((Piece::Queen, Color::Black)),
                    75 => Some((Piece::King, Color::White)),
                    107 => Some((Piece::King, Color::Black)),
                    _ => None,
                };
                proof {
                    assert(pc == piece_of_char(ch));
                }
                match pc {
                    None => {
                        return Err(EpdError::UnexpectedChar(ch as char));
                    },
                    Some(t) => {
                        if file >= 8 {
                            return Err(EpdError::TooMuchPieces { rank: Rank::from_index(rank) });
                        }
                        let sq = crate::square::Square::new(
                            File::from_index(file),
                            Rank::from_index(rank),
                        );
                        board.erase_piece(sq);
                        board.place_unchecked(t.1, sq, t.0);
                        proof {
                            let mbn = Seq::new(64, |j: int| board.mb(j));
                            assert(mbn =~= mbc.update(
                                rank * 8 + file,
                                encode_pc(t.0.index(), t.1.index()),
                            ));
                        }
                        file = file + 1;
                        i = i + 1;
                    },
                }
            }
        }
        // side to move
        if i >= s.len() {
            return Err(EpdError::UnexpectedEnd);
        }
        let side = if s[i] == 119 {
            Color::White
        } else if s[i] == 98 {
            Color::Black
        } else {
            return Err(EpdError::UnexpectedChar(s[i] as char));
        };
        let ghost mb_before = Seq::new(64, |j: int| board.mb(j));
        board.force_side(side);
        proof {
            assert(Seq::new(64, |j: int| board.mb(j)) =~= mb_before);
        }
        i = i + 1;
        if i >= s.len() {
            return Err(EpdError::UnexpectedEnd);
        }
        if s[i] != 32 {
            return Err(EpdError::UnexpectedChar(s[i] as char));
        }
        i = i + 1;
        // castling rights
        loop
            invariant_except_break
                spec_parse_epd(s@) == parse_castle(
                    s@,
                    i as int,
                    Seq::new(64, |j: int| board.mb(j)),
                    side,
                    board.spec_castle_rights(0).spec_king_side(),
                    board.spec_castle_rights(0).spec_queen_side(),
                    board.spec_castle_rights(1).spec_king_side(),
                    board.spec_castle_rights(1).spec_queen_side(),
                ),
            invariant
                board.wf(),
                i <= s@.len(),
                board.spec_side_to_move() == side,
                board.spec_en_passant() is None,
            ensures
                spec_parse_epd(s@) == parse_ep(
                    s@,
                    i as int,
                    Seq::new(64, |j: int| board.mb(j)),
                    side,
                    board.spec_castle_rights(0).spec_king_side(),
                    board.spec_castle_rights(0).spec_queen_side(),
                    board.spec_castle_rights(1).spec_king_side(),
                    board.spec_castle_rights(1).spec_queen_side(),
                ),
            decreases s@.len() - i,
        {
            let ghost mbc = Seq::new(64, |j: int| board.mb(j));
            if i >= s.len() {
                return Err(EpdError::UnexpectedEnd);
            }
            let ch = s[i];
            if ch == 75 {
                board.allow_king_side_castle(Color::White);
            } else if ch == 81 {
                board.allow_queen_side_castle(Color::White);
            } else if ch == 107 {
                board.allow_king_side_castle(Color::Black);
            } else if ch == 113 {
                board.allow_queen_side_castle(Color::Black);
            } else if ch == 32 {
                i = i + 1;
                break ;
            } else if ch == 45 {
                if i + 1 >= s.len() {
                    return Err(EpdError::UnexpectedEnd);
                }
                if s[i + 1] != 32 {
                    return Err(EpdError::UnexpectedChar(s[i + 1] as char));
                }
                i = i + 2;
                break ;
            } else {
                return Err(EpdError::UnexpectedChar(ch as char));
            }
            proof {
                let mbn = Seq::new(64, |j: int| board.mb(j));
                assert(mbn =~= mbc);
            }
            i = i + 1;
        }
        // en passant
        if i >= s.len() {
            return Err(EpdError::UnexpectedEnd);
        }
        let ch = s[i];
        if 97 <= ch && ch <= 104 {
            board.set_en_passant(Some(File::from_index(ch - 97)));
        } else if ch == 45 {
            board.set_en_passant(None);
        } else {
            return Err(EpdError::UnexpectedChar(ch as char));
        }
        i = i + 1;
        proof {
            let st = spec_parse_epd(s@)->Ok_0;
            assert(board_matches(board, st));
        }
        Ok((board, i))
    }

    /// Parse an EPD string into a board.
    ///
    /// Fischer-random castling is not supported; `chess960` must be false.
    pub fn from_epd(chess960: bool, epd: &str) -> (r: Result<Board, EpdError>)
        requires
            !chess960,
        ensures
            match r {
                Ok(b) => {
                    &&& spec_parse_epd(epd.spec_bytes()) is Ok
                    &&& board_matches(b, spec_parse_epd(epd.spec_bytes())->Ok_0)
                    &&& b.wf()
                },
                Err(e) => spec_parse_epd(epd.spec_bytes()) == Err::<EpdState, EpdError>(e),
            },
    {
        let bytes = epd.as_bytes();
        match Board::parse_epd_bytes(bytes) {
            Ok(t) => Ok(t.0),
            Err(e) => Err(e),
        }
    }
}

/// The notation byte of a piece of the given color: uppercase for white.
fn piece_byte(piece: Piece, color: Color) -> (r: u8)
    ensures
        piece_of_char(r) == Some((piece, color)),
{
    match (piece, color) {
        (Piece::Pawn, Color::White) => 80,
        (Piece::Pawn, Color::Black) => 112,
        (Piece::Knight, Color::White) => 78,
        (Piece::Knight, Color::Black) => 110,
        (Piece::Bishop, Color::White) => 66,
        (Piece::Bishop, Color::Black) => 98,
        (Piece::Rook, Color::White) => 82,
        (Piece::Rook, Color::Black) => 114,
        (Piece::Queen, Color::White) => 81,
        (Piece::Queen, Color::Black) => 113,
        (Piece::King, Color::White) => 75,
        (Piece::King, Color::Black) => 107,
    }
}

/// Whether `s` extends the byte prefix `out`.
spec fn prefix_of(out: Seq<u8>, s: Seq<u8>) -> bool {
    s.len() >= out.len() && forall|x: int| 0 <= x < out.len() ==> s[x] == out[x]
}

/// Mid-serialization placement stage: every byte string extending the
/// emitted prefix parses, from the start, exactly as the placement parser
/// parses the remainder from the given rank, file and mailbox state.
spec fn ser_placement(out: Seq<u8>, rank: int, file: int, mb: Seq<u8>) -> bool {
    forall|s: Seq<u8>|
        #![trigger spec_parse_epd(s)]
        prefix_of(out, s) ==> spec_parse_epd(s) == parse_placement(
            s,
            out.len() as int,
            rank,
            file,
            mb,
        )
}

/// Mid-serialization side stage.
spec fn ser_side(out: Seq<u8>, mb: Seq<u8>) -> bool {
    forall|s: Seq<u8>|
        #![trigger spec_parse_epd(s)]
        prefix_of(out, s) ==> spec_parse_epd(s) == parse_side(s, out.len() as int, mb)
}

/// Mid-serialization castling stage.
spec fn ser_castle(
    out: Seq<u8>,
    mb: Seq<u8>,
    side: Color,
    wk: bool,
    wq: bool,
    bk: bool,
    bq: bool,
) -> bool {
    forall|s: Seq<u8>|
        #![trigger spec_parse_epd(s)]
        prefix_of(out, s) ==> spec_parse_epd(s) == parse_castle(
            s,
            out.len() as int,
            mb,
            side,
            wk,
            wq,
            bk,
            bq,
        )
}

/// Mid-serialization en-passant stage.
spec fn ser_ep(
    out: Seq<u8>,
    mb: Seq<u8>,
    side: Color,
    wk: bool,
    wq: bool,
    bk: bool,
    bq: bool,
) -> bool {
    forall|s: Seq<u8>|
        #![trigger spec_parse_epd(s)]
        prefix_of(out, s) ==> spec_parse_epd(s) == parse_ep(
            s,
            out.len() as int,
            mb,
            side,
            wk,
            wq,
            bk,
            bq,
        )
}

/// One byte appended to a prefix keeps every extension an extension of the
/// old prefix, with the new byte at the joint.
proof fn lemma_prefix_push(out: Seq<u8>, c: u8, s: Seq<u8>)
    requires
        prefix_of(out.push(c), s),
    ensures
        prefix_of(out, s),
        s[out.len() as int] == c,
{
    assert forall|x: int| 0 <= x < out.len() implies s[x] == out[x] by {
        assert(s[x] == out.push(c)[x]);
    }
    assert(s[out.len() as int] == out.push(c)[out.len() as int]);
}

/// Emitting an empty-run digit advances the parser's file counter.
proof fn lemma_ser_digit(out: Seq<u8>, rank: int, file: int, mb: Seq<u8>, d: u8)
    requires
        ser_placement(out, rank, file, mb),
        1 <= d <= 8,
        file + d <= 8,
    ensures
        ser_placement(out.push((48 + d) as u8), rank, file + d, mb),
{
    let out2 = out.push((48 + d) as u8);
    assert forall|s: Seq<u8>| prefix_of(out2, s) implies #[trigger] spec_parse_epd(s)
        == parse_placement(s, out2.len() as int, rank, file + d, mb) by {
        lemma_prefix_push(out, (48 + d) as u8, s);
        assert(spec_parse_epd(s) == parse_placement(s, out.len() as int, rank, file, mb));
    }
}

/// Emitting a piece character places that piece in the parser's mailbox and
/// advances its file counter.
proof fn lemma_ser_piece(out: Seq<u8>, rank: int, file: int, mb: Seq<u8>, ch: u8)
    requires
        ser_placement(out, rank, file, mb),
        piece_of_char(ch) is Some,
        0 <= file < 8,
    ensures
        ser_placement(
            out.push(ch),
            rank,
            file + 1,
            mb.update(
                rank * 8 + file,
                encode_pc(
                    piece_of_char(ch)->Some_0.0.index(),
                    piece_of_char(ch)->Some_0.1.index(),
                ),
            ),
        ),
{
    let out2 = out.push(ch);
    let mb2 = mb.update(
        rank * 8 + file,
        encode_pc(piece_of_char(ch)->Some_0.0.index(), piece_of_char(ch)->Some_0.1.index()),
    );
    assert forall|s: Seq<u8>| prefix_of(out2, s) implies #[trigger] spec_parse_epd(s)
        == parse_placement(s, out2.len() as int, rank, file + 1, mb2) by {
        lemma_prefix_push(out, ch, s);
        assert(spec_parse_epd(s) == parse_placement(s, out.len() as int, rank, file, mb));
        assert(!(49 <= ch <= 56));
    }
}

/// Emitting the rank separator moves the parser to the next rank down.
proof fn lemma_ser_slash(out: Seq<u8>, rank: int, file: int, mb: Seq<u8>)
    requires
        ser_placement(out, rank, file, mb),
        rank > 0,
    ensures
        ser_placement(out.push(47), rank - 1, 0, mb),
{
    let out2 = out.push(47);
    assert forall|s: Seq<u8>| prefix_of(out2, s) implies #[trigger] spec_parse_epd(s)
        == parse_placement(s, out2.len() as int, rank - 1, 0, mb) by {
        lemma_prefix_push(out, 47, s);
        assert(spec_parse_epd(s) == parse_placement(s, out.len() as int, rank, file, mb));
    }
}

/// Emitting the space after the first rank ends the placement.
proof fn lemma_ser_space_to_side(out: Seq<u8>, file: int, mb: Seq<u8>)
    requires
        ser_placement(out, 0, file, mb),
    ensures
        ser_side(out.push(32), mb),
{
    let out2 = out.push(32);
    assert forall|s: Seq<u8>| prefix_of(out2, s) implies #[trigger] spec_parse_epd(s)
        == parse_side(s, out2.len() as int, mb) by {
        lemma_prefix_push(out, 32, s);
        assert(spec_parse_epd(s) == parse_placement(s, out.len() as int, 0, file, mb));
    }
}

/// Emitting the side token and its trailing space sets the parser's side.
proof fn lemma_ser_side(out: Seq<u8>, mb: Seq<u8>, ch: u8)
    requires
        ser_side(out, mb),
        ch == 119 || ch == 98,
    ensures
        ser_castle(
            out.push(ch).push(32),
            mb,
            if ch == 119 {
                Color::White
            } else {
                Color::Black
            },
            false,
            false,
            false,
            false,
        ),
{
    let out1 = out.push(ch);
    let out2 = out1.push(32);
    let side = if ch == 119 {
        Color::White
    } else {
        Color::Black
    };
    assert forall|s: Seq<u8>| prefix_of(out2, s) implies #[trigger] spec_parse_epd(s)
        == parse_castle(s, out2.len() as int, mb, side, false, false, false, false) by {
        lemma_prefix_push(out1, 32, s);
        lemma_prefix_push(out, ch, s);
        assert(spec_parse_epd(s) == parse_side(s, out.len() as int, mb));
    }
}

/// Emitting one castling-rights letter turns its flag on in the parser.
proof fn lemma_ser_flag(
    out: Seq<u8>,
    mb: Seq<u8>,
    side: Color,
    wk: bool,
    wq: bool,
    bk: bool,
    bq: bool,
    ch: u8,
)
    requires
        ser_castle(out, mb, side, wk, wq, bk, bq),
        ch == 75 || ch == 81 || ch == 107 || ch == 113,
    ensures
        ser_castle(
            out.push(ch),
            mb,
            side,
            if ch == 75 {
                true
            } else {
                wk
            },
            if ch == 81 {
                true
            } else {
                wq
            },
            if ch == 107 {
                true
            } else {
                bk
            },
            if ch == 113 {
                true
            } else {
                bq
            },
        ),
{
    let out2 = out.push(ch);
    let wk2 = if ch == 75 { true } else { wk };
    let wq2 = if ch == 81 { true } else { wq };
    let bk2 = if ch == 107 { true } else { bk };
    let bq2 = if ch == 113 { true } else { bq };
    assert forall|s: Seq<u8>| prefix_of(out2, s) implies #[trigger] spec_parse_epd(s)
        == parse_castle(s, out2.len() as int, mb, side, wk2, wq2, bk2, bq2) by {
        lemma_prefix_push(out, ch, s);
        assert(spec_parse_epd(s) == parse_castle(s, out.len() as int, mb, side, wk, wq, bk, bq));
    }
}

/// Emitting the space after the castling tokens moves the parser on to the
/// en-passant token.
proof fn lemma_ser_castle_space(
    out: Seq<u8>,
    mb: Seq<u8>,
    side: Color,
    wk: bool,
    wq: bool,
    bk: bool,
    bq: bool,
)
    requires
        ser_castle(out, mb, side, wk, wq, bk, bq),
    ensures
        ser_ep(out.push(32), mb, side, wk, wq, bk, bq),
{
    let out2 = out.push(32);
    assert forall|s: Seq<u8>| prefix_of(out2, s) implies #[trigger] spec_parse_epd(s)
        == parse_ep(s, out2.len() as int, mb, side, wk, wq, bk, bq) by {
        lemma_prefix_push(out, 32, s);
        assert(spec_parse_epd(s) == parse_castle(s, out.len() as int, mb, side, wk, wq, bk, bq));
    }
}

/// Emitting `- ` for an empty castling token set moves the parser on with
/// every flag off.
proof fn lemma_ser_castle_dash(
    out: Seq<u8>,
    mb: Seq<u8>,
    side: Color,
    wk: bool,
    wq: bool,
    bk: bool,
    bq: bool,
)
    requires
        ser_castle(out, mb, side, wk, wq, bk, bq),
    ensures
        ser_ep(out.push(45).push(32), mb, side, wk, wq, bk, bq),
{
    let out1 = out.push(45);
    let out2 = out1.push(32);
    assert forall|s: Seq<u8>| prefix_of(out2, s) implies #[trigger] spec_parse_epd(s)
        == parse_ep(s, out2.len() as int, mb, side, wk, wq, bk, bq) by {
        lemma_prefix_push(out1, 32, s);
        lemma_prefix_push(out, 45, s);
        assert(spec_parse_epd(s) == parse_castle(s, out.len() as int, mb, side, wk, wq, bk, bq));
        assert(s[out.len() as int] == 45 && s[out.len() as int + 1] == 32);
    }
}

/// Whether the ghost mailbox matches the board on the serialized squares —
/// ranks above `rank`, and the files of `rank` left of `file` — and is
/// empty elsewhere.
spec fn mb_prefix(b: Board, mb: Seq<u8>, rank: int, file: int) -> bool {
    mb.len() == 64 && forall|j: int|
        0 <= j < 64 ==> mb[j] == (if j / 8 > rank || (j / 8 == rank && j % 8 < file) {
            b.mb(j)
        } else {
            0u8
        })
}

impl Board {
    /// Serialize this position back to EPD bytes: placement with digit
    /// run-lengths for empty squares, side to move, castling flags and the
    /// en-passant square. The move counters of a FEN are not produced.
    /// Decoding the output reproduces this position exactly.
    #[verifier::rlimit(100)]
    pub fn to_epd(&self) -> (r: Vec<u8>)
        requires
            self.wf(),
        ensures
            r@.len() > 0,
            spec_parse_epd(r@) is Ok,
            board_matches(*self, spec_parse_epd(r@)->Ok_0),
            spec_parse_epd(r@)->Ok_0.next == (match self.spec_en_passant() {
                None => r@.len() as int,
                Some(f) => r@.len() - 1,
            }),
    {
        let mut out: Vec<u8> = Vec::new();
        let ghost mut mbg: Seq<u8> = Seq::new(64, |j: int| 0u8);
        proof {
            assert(out@ =~= Seq::<u8>::empty());
            assert(ser_placement(out@, 7, 0, mbg));
        }
        let mut rk: u8 = 8;
        while rk > 0
            invariant
                self.wf(),
                rk <= 8,
                rk > 0 ==> ser_placement(out@, rk as int - 1, 0, mbg) && mb_prefix(
                    *self,
                    mbg,
                    rk as int - 1,
                    0,
                ),
                rk == 0 ==> ser_placement(out@, 0, 8, mbg) && mb_prefix(*self, mbg, 0, 8),
            decreases rk,
        {
            rk = rk - 1;
            let mut empty: u8 = 0;
            let mut f: u8 = 0;
            while f < 8
                invariant
                    self.wf(),
                    rk < 8,
                    f <= 8,
                    empty <= f,
                    ser_placement(out@, rk as int, f as int - empty, mbg),
                    mb_prefix(*self, mbg, rk as int, f as int - empty),
                    forall|x: int|
                        f - empty <= x < f ==> #[trigger] self.mb(rk as int * 8 + x) == 0,
                decreases 8 - f,
            {
                let sq = crate::square::Square::new(
                    crate::square::File::from_index(f),
                    crate::square::Rank::from_index(rk),
                );
                match self.piece_and_color_on(sq) {
                    Some(pc) => {
                        if empty != 0 {
                            proof {
                                lemma_ser_digit(out@, rk as int, f as int - empty, mbg, empty);
                                assert forall|j: int| 0 <= j < 64 implies mbg[j] == (if j / 8
                                    > rk as int || (j / 8 == rk as int && j % 8 < f as int) {
                                    self.mb(j)
                                } else {
                                    0u8
                                }) by {
                                    if j / 8 == rk as int && f - empty <= j % 8 < f {
                                        assert(j == rk as int * 8 + (j % 8));
                                        assert(self.mb(rk as int * 8 + (j % 8)) == 0);
                                    }
                                }
                                assert(mb_prefix(*self, mbg, rk as int, f as int));
                            }
                            out.push(48 + empty);
                            empty = 0;
                        }
                        let ch = piece_byte(pc.0, pc.1);
                        proof {
                            lemma_ser_piece(out@, rk as int, f as int, mbg, ch);
                            let e = self.mb(rk as int * 8 + f as int);
                            crate::board::lemma_mb_decode(e);
                            crate::board::lemma_encode_pc(
                                pc.0.index(),
                                pc.1.index(),
                            );
                            assert(encode_pc(pc.0.index(), pc.1.index()) == e);
                            mbg = mbg.update(rk as int * 8 + f as int, e);
                            assert(mb_prefix(*self, mbg, rk as int, f as int + 1));
                        }
                        out.push(ch);
                    },
                    None => {
                        proof {
                            assert(mb_prefix(*self, mbg, rk as int, (f as int + 1) - (empty as int
                                + 1)));
                        }
                        empty = empty + 1;
                    },
                }
                f = f + 1;
            }
            if empty != 0 {
                proof {
                    lemma_ser_digit(out@, rk as int, 8 - empty as int, mbg, empty);
                    assert forall|j: int| 0 <= j < 64 implies mbg[j] == (if j / 8 > rk as int || (j
                        / 8 == rk as int && j % 8 < 8) {
                        self.mb(j)
                    } else {
                        0u8
                    }) by {
                        if j / 8 == rk as int && 8 - empty <= j % 8 < 8 {
                            assert(j == rk as int * 8 + (j % 8));
                            assert(self.mb(rk as int * 8 + (j % 8)) == 0);
                        }
                    }
                    assert(mb_prefix(*self, mbg, rk as int, 8));
                }
                out.push(48 + empty);
            }
            if rk != 0 {
                proof {
                    lemma_ser_slash(out@, rk as int, 8, mbg);
                    assert(mb_prefix(*self, mbg, rk as int - 1, 0));
                }
                out.push(47);  // '/'
            }
        }
        proof {
            lemma_ser_space_to_side(out@, 8, mbg);
        }
        out.push(32);
        let sc: u8 = match self.side_to_move() {
            Color::White => 119,  // 'w'
            Color::Black => 98,  // 'b'
        };
        proof {
            lemma_ser_side(out@, mbg, sc);
        }
        out.push(sc);
        out.push(32);
        let ghost side = self.spec_side_to_move();
        let wr = self.white_castle_rights();
        let br = self.black_castle_rights();
        let ghost mut gwk = false;
        let ghost mut gwq = false;
        let ghost mut gbk = false;
        let ghost mut gbq = false;
        let mut any = false;
        if wr.king_side() {
            proof {
                lemma_ser_flag(out@, mbg, side, gwk, gwq, gbk, gbq, 75);
                gwk = true;
            }
            out.push(75);  // 'K'
            any = true;
        }
        if wr.queen_side() {
            proof {
                lemma_ser_flag(out@, mbg, side, gwk, gwq, gbk, gbq, 81);
                gwq = true;
            }
            out.push(81);  // 'Q'
            any = true;
        }
        if br.king_side() {
            proof {
                lemma_ser_flag(out@, mbg, side, gwk, gwq, gbk, gbq, 107);
                gbk = true;
            }
            out.push(107);  // 'k'
            any = true;
        }
        if br.queen_side() {
            proof {
                lemma_ser_flag(out@, mbg, side, gwk, gwq, gbk, gbq, 113);
                gbq = true;
            }
            out.push(113);  // 'q'
            any = true;
        }
        if !any {
            proof {
                lemma_ser_castle_dash(out@, mbg, side, gwk, gwq, gbk, gbq);
            }
            out.push(45);  // '-'
            out.push(32);
        } else {
            proof {
                lemma_ser_castle_space(out@, mbg, side, gwk, gwq, gbk, gbq);
            }
            out.push(32);
        }
        match self.en_passant() {
            Some(f) => {
                let ghost pre = out@;
                out.push(97 + f.to_index());
                let tr = match self.side_to_move() {
                    Color::White => 5u8,
                    Color::Black => 2u8,
                };
                out.push(49 + tr);
                proof {
                    let i = pre.len() as int;
                    assert(prefix_of(pre, out@)) by {
                        assert forall|x: int| 0 <= x < pre.len() implies out@[x] == pre[x] by {}
                    }
                    assert(out@[i] == 97 + f.index());
                    assert(spec_parse_epd(out@) == parse_ep(out@, i, mbg, side, gwk, gwq, gbk, gbq));
                    assert(File::spec_from_index(f.index()) == f);
                }
            },
            None => {
                let ghost pre = out@;
                out.push(45);
                proof {
                    let i = pre.len() as int;
                    assert(prefix_of(pre, out@)) by {
                        assert forall|x: int| 0 <= x < pre.len() implies out@[x] == pre[x] by {}
                    }
                    assert(out@[i] == 45);
                    assert(spec_parse_epd(out@) == parse_ep(out@, i, mbg, side, gwk, gwq, gbk, gbq));
                }
            },
        }
        out
    }
}

} // verus!
