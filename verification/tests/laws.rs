use dychess::bitboard::Bitboard;
use dychess::board::epd::EpdError;
use dychess::board::fen::FenError;
use dychess::piece::Piece;
use dychess::board::Board;
use dychess::chess_move::Move;
use dychess::generator::magic_gen::{bishop_block, rook_block};
use dychess::square::{File, Rank, Square};
use dychess::tables::Tables;

const KIWIPETE: &str = "r3k2r/p1ppqpb1/bn2pnp1/3PN3/1p2P3/2N2Q1p/PPPBBPPP/R3K2R w KQkq - 0 1";

fn all_moves(t: &Tables, board: &Board, captures: bool) -> Vec<Move> {
    let mut iter = if captures {
        board.pseudo_legal_captures()
    } else {
        board.pseudo_legal_moves()
    };
    let mut chunk: Vec<Move> = Vec::new();
    let mut out = Vec::new();
    while iter.next_chunk(t, &mut chunk) {
        out.extend(chunk.iter().copied());
    }
    out
}

/// Every move surviving the legality filter leaves the mover's king square
/// unattacked, cross-checked against the independent `attackers` lookup.
#[test]
fn filtered_moves_leave_king_safe() {
    let t = Tables::new().expect("magic table search");
    let board = Board::from_epd(false, KIWIPETE).unwrap();
    let mover = board.side_to_move();
    let mut survivors = 0;
    for m in all_moves(&t, &board, false) {
        let mut this = board;
        this.make_move(m);
        if this.is_illegal(&t) {
            continue;
        }
        survivors += 1;
        assert!(!this.is_side_check(&t, mover));
        let ksq = this.king_of(mover);
        let hostile = this.attackers(&t, ksq).0 & this.color_combined(mover.not()).0;
        assert_eq!(hostile, 0);
    }
    assert_eq!(survivors, 48);
}

/// Every capture-mode move is also produced by the full generator and lands
/// on an occupied square.
#[test]
fn captures_are_a_subset() {
    let t = Tables::new().expect("magic table search");
    let board = Board::from_epd(false, KIWIPETE).unwrap();
    let full = all_moves(&t, &board, false);
    let caps = all_moves(&t, &board, true);
    let occ = board.combined().0;
    for m in &caps {
        assert!(full.contains(m));
        assert_ne!(occ & (1u64 << m.to().to_u8()), 0);
    }
    assert!(caps.len() < full.len());
}

/// The magic lookup agrees with the brute-force ray cast on sampled blocker
/// subsets of every square.
#[test]
fn magic_lookup_matches_ray_cast() {
    let t = Tables::new().expect("magic table search");
    for s in 0..64u8 {
        let sq = Square::from_index(s);
        for seed in [0u64, 0xffff_ffff_ffff_ffff, 0x1234_5678_9abc_def0, 0x8040_2010_0804_0201] {
            let occ = Bitboard(seed.rotate_left(s as u32));
            let b = t.bishop_moves(sq, occ);
            let r = t.rook_moves(sq, occ);
            assert_eq!(b.0, bishop_block(Bitboard(occ.0 & t.bishop_magic[s as usize].0.mask), sq).0);
            assert_eq!(r.0, rook_block(Bitboard(occ.0 & t.rook_magic[s as usize].0.mask), sq).0);
        }
    }
}

/// A null move flips the side to move and clears the en-passant file, and
/// its restorer puts both back.
#[test]
fn null_move_round_trip() {
    let t = Tables::new().expect("magic table search");
    let mut board =
        Board::from_epd(false, "rnbqkbnr/pppppppp/8/8/4P3/8/PPPP1PPP/RNBQKBNR b KQkq e3 0 1")
            .unwrap();
    let before = board;
    assert!(!board.is_check(&t));
    let restorer = board.null_move();
    assert_eq!(board.side_to_move(), before.side_to_move().not());
    assert!(board.en_passant().is_none());
    board.restore_null_move(restorer);
    assert_eq!(board.get_hash(), before.get_hash());
    assert_eq!(board, before);
}

/// Decoding errors: each malformed notation yields its own error kind.
#[test]
fn epd_errors() {
    assert_eq!(
        Board::from_epd(false, "x7/8/8/8/8/8/8/8 w - -").unwrap_err(),
        EpdError::UnexpectedChar('x'),
    );
    assert_eq!(
        Board::from_epd(false, "8/8/8").unwrap_err(),
        EpdError::UnexpectedEnd,
    );
    assert_eq!(
        Board::from_epd(false, "81/8/8/8/8/8/8/8 w - -").unwrap_err(),
        EpdError::TooMuchPieces { rank: Rank::_8 },
    );
    assert_eq!(
        Board::from_epd(false, "8/8 w - -").unwrap_err(),
        EpdError::TooLittleRanks { last_rank: Rank::_7 },
    );
    // a FEN needs at least one character after the en-passant token
    assert_eq!(
        Board::from_fen(false, "8/8/8/8/8/8/8/8 w - -").unwrap_err(),
        FenError::UnexpectedEnd,
    );
    assert!(Board::from_fen(false, "8/8/8/8/8/8/8/8 w - - 0 1").is_ok());
}

/// Basic bitboard queries.
#[test]
fn bitboard_queries() {
    let bb = Bitboard(0b1010_1000);
    assert_eq!(bb.popcnt(), 3);
    assert_eq!(bb.first_square().unwrap().to_u8(), 3);
    assert_eq!(bb.last_square().unwrap().to_u8(), 7);
    assert!(bb.to_square().is_err());
    assert_eq!(bb.to_square().unwrap_err(), 3);
    assert_eq!(Bitboard(1 << 42).to_square().unwrap().to_u8(), 42);
    assert!(Bitboard(0).is_empty());

    let mut it = bb.iter();
    assert_eq!(it.next().unwrap().to_u8(), 3);
    assert_eq!(it.remainder().0, 0b1010_0000);
    assert!(!it.had_emptied());
    assert_eq!(it.next().unwrap().to_u8(), 5);
    assert_eq!(it.next().unwrap().to_u8(), 7);
    assert!(it.next().is_none());
}

/// Move packing keeps its fields, and a pawn "promotion" is recorded as no
/// promotion.
#[test]
fn move_packing() {
    let e2 = Square::new(File::E, Rank::_2);
    let e4 = Square::new(File::E, Rank::_4);
    let m = Move::new(e2, e4, Some(Piece::Pawn));
    assert_eq!(m.promotion(), None);
    assert_eq!(m.from(), e2);
    assert_eq!(m.to(), e4);
    let p = Move::new(e2, e4, Some(Piece::Queen));
    assert_eq!(p.promotion(), Some(Piece::Queen));
}

/// Round-trip law: parsing a serialized position reproduces the placement,
/// side to move, castling rights and en-passant file exactly.
#[test]
fn epd_round_trip() {
    let positions = [
        "rnbqkbnr/pppppppp/8/8/8/8/PPPPPPPP/RNBQKBNR w KQkq -",
        KIWIPETE,
        "rnbqkbnr/pppppppp/8/8/4P3/8/PPPP1PPP/RNBQKBNR b KQkq e3 0 1",
        "rnbq1bnr/ppp1pkpp/8/3pPp2/8/8/PPPPKPPP/RNBQ1BNR w - - 0 4",
        "8/4k3/8/8/8/2p5/3K4/8 w - -",
    ];
    for pos in positions {
        let board = Board::from_epd(false, pos).unwrap();
        let text = String::from_utf8(board.to_epd()).unwrap();
        let reparsed = Board::from_epd(false, &text).unwrap();
        assert_eq!(board, reparsed, "{pos} -> {text}");
        assert_eq!(board.get_hash(), reparsed.get_hash());
    }
}
