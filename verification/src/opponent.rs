//! The automated opponent: a deliberately non-strategic move policy.

use vstd::prelude::*;
use crate::board::Board;
use crate::board::CellState;
use crate::board::idx;
use crate::board::spec_full;

verus! {

/// Selects the opponent's cell: a deterministic row-major scan that takes
/// the first `Empty` cell, in the order (0,0), (0,1), (0,2), (1,0), ...
/// Returns `None` exactly when the board is full. The policy is
/// intentionally non-strategic (no blocking, no win-seeking) and must stay
/// so: changing it would change observable game outcomes.
pub fn opponent_move(board: &Board) -> (r: Option<(usize, usize)>)
    requires
        board.wf(),
    ensures
        match r {
            Some(p) => {
                &&& p.0 < 3
                &&& p.1 < 3
                &&& board@[idx(p.0 as int, p.1 as int)] is Empty
                &&& forall|k: int| 0 <= k < idx(p.0 as int, p.1 as int) ==> board@[k] !is Empty
            },
            None => spec_full(board@),
        },
{
    let mut row: usize = 0;
    while row < 3
        invariant
            board.wf(),
            row <= 3,
            forall|k: int| 0 <= k < idx(row as int, 0) ==> board@[k] !is Empty,
        decreases 3 - row,
    {
        let mut col: usize = 0;
        while col < 3
            invariant
                board.wf(),
                row < 3,
                col <= 3,
                forall|k: int| 0 <= k < idx(row as int, col as int) ==> board@[k] !is Empty,
            decreases 3 - col,
        {
            if matches!(board.at(row, col), CellState::Empty) {
                return Some((row, col));
            }
            col = col + 1;
        }
        row = row + 1;
    }
    None
}

} // verus!
