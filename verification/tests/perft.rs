use dychess::board::Board;
use dychess::chess_move::Move;
use dychess::tables::Tables;

fn perft(t: &Tables, board: &Board, depth: usize) -> u64 {
    if depth == 0 {
        return 1;
    }

    let mut iter = board.pseudo_legal_moves();
    let mut chunk: Vec<Move> = Vec::new();
    let mut total = 0;
    while iter.next_chunk(t, &mut chunk) {
        for m in &chunk {
            let mut this = *board;
            this.make_move(*m);

            if this.is_illegal(t) {
                continue;
            }

            total += perft(t, &this, depth - 1);
        }
    }

    total
}

#[test]
fn test_perft() {
    let t = Tables::new().expect("magic table search");
    let board = Board::from_epd(false, "rnbqkbnr/pppppppp/8/8/8/8/PPPPPPPP/RNBQKBNR w KQkq - 0 1")
        .unwrap();
    for (i, expected) in [20, 400, 8_902, 197_281].into_iter().enumerate() {
        assert_eq!(perft(&t, &board, i + 1), expected, "start depth {}", i + 1);
    }
}

#[test]
fn kiwipete_perft() {
    let t = Tables::new().expect("magic table search");
    let board = Board::from_epd(
        false,
        "r3k2r/p1ppqpb1/bn2pnp1/3PN3/1p2P3/2N2Q1p/PPPBBPPP/R3K2R w KQkq - 0 1",
    )
    .unwrap();
    for (i, expected) in [48, 2_039, 97_862].into_iter().enumerate() {
        assert_eq!(perft(&t, &board, i + 1), expected, "kiwipete depth {}", i + 1);
    }
}

#[test]
fn test_perft_depth_five() {
    let t = Tables::new().expect("magic table search");
    let board = Board::default();
    assert_eq!(perft(&t, &board, 5), 4_865_609, "start depth 5");
}

#[test]
fn kiwipete_perft_depth_four() {
    let t = Tables::new().expect("magic table search");
    let board = Board::from_epd(
        false,
        "r3k2r/p1ppqpb1/bn2pnp1/3PN3/1p2P3/2N2Q1p/PPPBBPPP/R3K2R w KQkq - 0 1",
    )
    .unwrap();
    assert_eq!(perft(&t, &board, 4), 4_085_603, "kiwipete depth 4");
}
