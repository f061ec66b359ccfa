//! The turn-by-turn state machine the orchestrator runs.
//!
//! Each half-turn is one state transition: write the mover's mark, then
//! re-evaluate the board. The surrounding program owns the loop, the
//! prompts, and the re-prompting on rejected input; it hands this module
//! nothing but validated coordinates.

use vstd::prelude::*;
use crate::board::Board;
use crate::board::CellState;
use crate::board::idx;
use crate::board::spec_full;
use crate::opponent::opponent_move;
use crate::outcome::Outcome;
use crate::outcome::check;
use crate::outcome::spec_outcome;

verus! {

/// Where the session stands between half-turns.
#[derive(Clone, Copy, PartialEq, Eq, Structural, Debug)]
pub enum Phase {
    AwaitingHumanMove,
    AwaitingOpponentMove,
    Finished(Outcome),
}

/// How the opponent's half-turn ended: either the board was already full
/// (an immediate draw, the board untouched), or a cell was marked and the
/// game moved on.
#[derive(Clone, Copy, PartialEq, Eq, Structural, Debug)]
pub enum OpponentTurn {
    BoardFull,
    Moved { row: usize, col: usize, next: Phase },
}

/// The phase after a half-turn on a board evaluating to `o`: finished if
/// the game is decided, else the other player's turn.
pub open spec fn phase_after(o: Outcome, else_phase: Phase) -> Phase {
    if o is InProgress {
        else_phase
    } else {
        Phase::Finished(o)
    }
}

/// The session's starting phase: the human moves first on an empty board.
pub fn initial_phase() -> (p: Phase)
    ensures
        p is AwaitingHumanMove,
{
    Phase::AwaitingHumanMove
}

/// The human's half-turn: writes the validated move, re-evaluates, and
/// says whose turn is next or that the game is over.
pub fn human_turn(board: &mut Board, row: usize, col: usize) -> (next: Phase)
    requires
        old(board).wf(),
        row < 3,
        col < 3,
        old(board)@[idx(row as int, col as int)] is Empty,
    ensures
        final(board).wf(),
        final(board)@ == old(board)@.update(idx(row as int, col as int), CellState::Human),
        next == phase_after(spec_outcome(final(board)@), Phase::AwaitingOpponentMove),
{
    board.write(row, col, CellState::Human);
    let outcome = check(board);
    if matches!(outcome, Outcome::InProgress) {
        Phase::AwaitingOpponentMove
    } else {
        Phase::Finished(outcome)
    }
}

/// The opponent's half-turn: selects the first empty cell in row-major
/// order, writes it, and re-evaluates. On a full board it reports
/// `BoardFull` instead and leaves the board untouched; the orchestrator
/// treats that as an immediate draw and ends the session.
pub fn opponent_turn(board: &mut Board) -> (r: OpponentTurn)
    requires
        old(board).wf(),
    ensures
        final(board).wf(),
        r is BoardFull <==> spec_full(old(board)@),
        match r {
            OpponentTurn::BoardFull => final(board)@ == old(board)@,
            OpponentTurn::Moved { row, col, next } => {
                &&& row < 3
                &&& col < 3
                &&& old(board)@[idx(row as int, col as int)] is Empty
                &&& forall|k: int|
                    0 <= k < idx(row as int, col as int) ==> old(board)@[k] !is Empty
                &&& final(board)@ == old(board)@.update(
                    idx(row as int, col as int),
                    CellState::Opponent,
                )
                &&& next == phase_after(spec_outcome(final(board)@), Phase::AwaitingHumanMove)
            },
        },
{
    match opponent_move(board) {
        None => OpponentTurn::BoardFull,
        Some((row, col)) => {
            board.write(row, col, CellState::Opponent);
            let outcome = check(board);
            let next = if matches!(outcome, Outcome::InProgress) {
                Phase::AwaitingHumanMove
            } else {
                Phase::Finished(outcome)
            };
            OpponentTurn::Moved { row, col, next }
        },
    }
}

/// The display marker of a cell state.
pub open spec fn spec_marker(s: CellState) -> char {
    match s {
        CellState::Empty => '-',
        CellState::Human => 'X',
        CellState::Opponent => 'O',
    }
}

/// The single-character marker a cell is rendered as: `X` for the human,
/// `O` for the opponent, `-` for an empty cell. Display only; the board
/// itself never stores characters.
pub fn marker(s: CellState) -> (m: char)
    ensures
        m == spec_marker(s),
{
    match s {
        CellState::Empty => '-',
        CellState::Human => 'X',
        CellState::Opponent => 'O',
    }
}

/// The final message owed for a decided outcome.
pub fn result_message(o: Outcome) -> (m: &'static str)
    requires
        o !is InProgress,
    ensures
        o is HumanWins ==> m@ == "You won!"@,
        o is OpponentWins ==> m@ == "You lost!"@,
        o is Draw ==> m@ == "draw!"@,
{
    match o {
        Outcome::HumanWins => "You won!",
        Outcome::OpponentWins => "You lost!",
        _ => "draw!",
    }
}

} // verus!
