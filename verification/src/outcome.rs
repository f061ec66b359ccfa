//! Outcome evaluation: win, draw, or still in progress.

use vstd::prelude::*;
use crate::board::Board;
use crate::board::CellState;
use crate::board::idx;
use crate::board::spec_full;

verus! {

/// The derived state of a game, recomputed from the board after each
/// half-turn and never stored.
#[derive(Clone, Copy, PartialEq, Eq, Structural, Debug)]
pub enum Outcome {
    InProgress,
    HumanWins,
    OpponentWins,
    Draw,
}

/// Row `r` is three equal non-empty cells.
pub open spec fn row_won(b: Seq<CellState>, r: int) -> bool {
    &&& b[idx(r, 0)] !is Empty
    &&& b[idx(r, 1)] == b[idx(r, 0)]
    &&& b[idx(r, 2)] == b[idx(r, 0)]
}

/// Column `c` is three equal non-empty cells.
pub open spec fn col_won(b: Seq<CellState>, c: int) -> bool {
    &&& b[idx(0, c)] !is Empty
    &&& b[idx(1, c)] == b[idx(0, c)]
    &&& b[idx(2, c)] == b[idx(0, c)]
}

/// The main diagonal (0,0)-(1,1)-(2,2) is three equal non-empty cells.
pub open spec fn main_diag_won(b: Seq<CellState>) -> bool {
    &&& b[idx(0, 0)] !is Empty
    &&& b[idx(1, 1)] == b[idx(0, 0)]
    &&& b[idx(2, 2)] == b[idx(0, 0)]
}

/// The anti-diagonal (0,2)-(1,1)-(2,0) is three equal non-empty cells.
pub open spec fn anti_diag_won(b: Seq<CellState>) -> bool {
    &&& b[idx(0, 2)] !is Empty
    &&& b[idx(1, 1)] == b[idx(0, 2)]
    &&& b[idx(2, 0)] == b[idx(0, 2)]
}

/// Some row, column, or diagonal is fully one non-empty state.
pub open spec fn some_line_won(b: Seq<CellState>) -> bool {
    ||| exists|r: int| 0 <= r < 3 && row_won(b, r)
    ||| exists|c: int| 0 <= c < 3 && col_won(b, c)
    ||| main_diag_won(b)
    ||| anti_diag_won(b)
}

/// The owner of the first completed line in the fixed checking order
/// (rows 0..3, then columns 0..3, then main diagonal, then anti-diagonal),
/// or `Empty` if no line is complete. The order only matters as a
/// deterministic tie-break on boards with several completed lines.
pub open spec fn spec_winner(b: Seq<CellState>) -> CellState {
    if row_won(b, 0) {
        b[idx(0, 0)]
    } else if row_won(b, 1) {
        b[idx(1, 0)]
    } else if row_won(b, 2) {
        b[idx(2, 0)]
    } else if col_won(b, 0) {
        b[idx(0, 0)]
    } else if col_won(b, 1) {
        b[idx(0, 1)]
    } else if col_won(b, 2) {
        b[idx(0, 2)]
    } else if main_diag_won(b) {
        b[idx(0, 0)]
    } else if anti_diag_won(b) {
        b[idx(0, 2)]
    } else {
        CellState::Empty
    }
}

/// What evaluating a board yields: the winner's outcome if a line is
/// complete, `Draw` on a full board without one, else `InProgress`.
pub open spec fn spec_outcome(b: Seq<CellState>) -> Outcome {
    match spec_winner(b) {
        CellState::Human => Outcome::HumanWins,
        CellState::Opponent => Outcome::OpponentWins,
        CellState::Empty => if spec_full(b) {
            Outcome::Draw
        } else {
            Outcome::InProgress
        },
    }
}

/// Evaluates the board: a pure function with no side effects. Checks the
/// three rows, the three columns, and both diagonals exhaustively; on a
/// board with several completed lines (unreachable under alternating play,
/// but not a crash) the first line in checking order decides.
pub fn check(board: &Board) -> (r: Outcome)
    requires
        board.wf(),
    ensures
        r == spec_outcome(board@),
{
    let mut i: usize = 0;
    while i < 3
        invariant
            board.wf(),
            i <= 3,
            forall|k: int| 0 <= k < i ==> !row_won(board@, k),
        decreases 3 - i,
    {
        let first = board.at(i, 0);
        if !matches!(first, CellState::Empty) && board.at(i, 1) == first && board.at(i, 2)
            == first {
            return state_outcome(first);
        }
        i = i + 1;
    }

    let mut j: usize = 0;
    while j < 3
        invariant
            board.wf(),
            j <= 3,
            forall|k: int| 0 <= k < 3 ==> !row_won(board@, k),
            forall|k: int| 0 <= k < j ==> !col_won(board@, k),
        decreases 3 - j,
    {
        let first = board.at(0, j);
        if !matches!(first, CellState::Empty) && board.at(1, j) == first && board.at(2, j)
            == first {
            return state_outcome(first);
        }
        j = j + 1;
    }

    let corner = board.at(0, 0);
    if !matches!(corner, CellState::Empty) && board.at(1, 1) == corner && board.at(2, 2)
        == corner {
        return state_outcome(corner);
    }

    let corner = board.at(0, 2);
    if !matches!(corner, CellState::Empty) && board.at(1, 1) == corner && board.at(2, 0)
        == corner {
        return state_outcome(corner);
    }

    if board.is_full() {
        Outcome::Draw
    } else {
        Outcome::InProgress
    }
}

/// The outcome owed to the owner of a completed line.
fn state_outcome(s: CellState) -> (r: Outcome)
    requires
        s !is Empty,
    ensures
        s is Human ==> r is HumanWins,
        s is Opponent ==> r is OpponentWins,
{
    match s {
        CellState::Human => Outcome::HumanWins,
        _ => Outcome::OpponentWins,
    }
}

/// A board's evaluation names a winner exactly when some row, column, or
/// diagonal is fully one non-empty state.
pub proof fn lemma_winner_iff_line(b: Seq<CellState>)
    requires
        b.len() == 9,
    ensures
        (spec_outcome(b) is HumanWins || spec_outcome(b) is OpponentWins) <==> some_line_won(b),
{
    if some_line_won(b) {
        assert(spec_winner(b) !is Empty);
    }
}

/// Evaluation is idempotent: two results of evaluating the same unmodified
/// board are identical, since each is pinned to `spec_outcome` of it.
pub proof fn lemma_check_idempotent(b: Seq<CellState>, r1: Outcome, r2: Outcome)
    requires
        r1 == spec_outcome(b),
        r2 == spec_outcome(b),
    ensures
        r1 == r2,
{
}

} // verus!
