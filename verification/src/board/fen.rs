use vstd::prelude::*;
use vstd::string::StringSliceAdditionalSpecFns;
use crate::board::epd::{board_matches, spec_parse_epd, EpdError, EpdState};
use crate::board::Board;
use crate::square::Rank;

verus! {

/// An error while decoding a FEN string.
#[derive(Clone, Copy, Debug, PartialEq, Eq, Structural)]
pub enum FenError {
    UnexpectedChar(char),
    UnexpectedEnd,
    TooMuchPieces { rank: Rank },
    TooLittleRanks { last_rank: Rank },
}

/// The FEN rendering of an EPD decoding error.
pub open spec fn fen_error_of(e: EpdError) -> FenError {
    match e {
        EpdError::UnexpectedChar(ch) => FenError::UnexpectedChar(ch),
        EpdError::UnexpectedEnd => FenError::UnexpectedEnd,
        EpdError::TooMuchPieces { rank } => FenError::TooMuchPieces { rank },
        EpdError::TooLittleRanks { last_rank } => FenError::TooLittleRanks { last_rank },
    }
}

/// Decode a whole FEN byte string: the EPD core followed by at least one
/// more character (the move counters begin there).
pub open spec fn spec_parse_fen(s: Seq<u8>) -> Result<EpdState, FenError> {
    match spec_parse_epd(s) {
        Ok(st) => if st.next < s.len() {
            Ok(st)
        } else {
            Err(FenError::UnexpectedEnd)
        },
        Err(e) => Err(fen_error_of(e)),
    }
}

impl Board {
    /// Parse a FEN string into a board.
    ///
    /// Fischer-random castling is not supported; `chess960` must be false.
    pub fn from_fen(chess960: bool, fen: &str) -> (r: Result<Board, FenError>)
        requires
            !chess960,
        ensures
            match r {
                Ok(b) => {
                    &&& spec_parse_fen(fen.spec_bytes()) is Ok
                    &&& board_matches(b, spec_parse_fen(fen.spec_bytes())->Ok_0)
                    &&& b.wf()
                },
                Err(e) => spec_parse_fen(fen.spec_bytes()) == Err::<EpdState, FenError>(e),
            },
    {
        let bytes = fen.as_bytes();
        match Board::parse_epd_bytes(bytes) {
            Ok(t) => {
                if t.1 < bytes.len() {
                    Ok(t.0)
                } else {
                    Err(FenError::UnexpectedEnd)
                }
            },
            Err(e) => Err(
                match e {
                    EpdError::UnexpectedChar(ch) => FenError::UnexpectedChar(ch),
                    EpdError::UnexpectedEnd => FenError::UnexpectedEnd,
                    EpdError::TooMuchPieces { rank } => FenError::TooMuchPieces { rank },
                    EpdError::TooLittleRanks { last_rank } => FenError::TooLittleRanks { last_rank },
                },
            ),
        }
    }
}

} // verus!
