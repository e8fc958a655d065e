use dychess::board::Board;
use dychess::chess_move::Move;
use dychess::square::{File, Rank, Square};

#[test]
fn capture_cr_change() {
    let mut board = Board::from_epd(false, "r3k2r/8/1N4N1/8/8/1n4n1/8/R3K2R b KQkq - 0 1").unwrap();

    board.make_move(Move::new(
        Square::new(File::G, Rank::_3),
        Square::new(File::H, Rank::_1),
        None,
    ));
    assert!(!board.white_castle_rights().king_side());

    board.make_move(Move::new(
        Square::new(File::G, Rank::_6),
        Square::new(File::H, Rank::_8),
        None,
    ));
    assert!(!board.black_castle_rights().king_side());

    board.make_move(Move::new(
        Square::new(File::B, Rank::_3),
        Square::new(File::A, Rank::_1),
        None,
    ));
    assert!(!board.white_castle_rights().queen_side());

    board.make_move(Move::new(
        Square::new(File::B, Rank::_6),
        Square::new(File::A, Rank::_8),
        None,
    ));
    assert!(!board.black_castle_rights().queen_side());
}
