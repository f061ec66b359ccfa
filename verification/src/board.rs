//! The board: a fixed 3x3 grid of cell states with bounds-checked access.

use vstd::prelude::*;

verus! {

/// Number of rows and of columns of the grid.
pub const SIDE: usize = 3;

/// Number of cells of the grid.
pub const CELLS: usize = 9;

/// What a single cell holds.
#[derive(Clone, Copy, PartialEq, Eq, Structural, Debug)]
pub enum CellState {
    Empty,
    Human,
    Opponent,
}

/// The one failure of raw board access: an index outside [0, 3).
#[derive(Clone, Copy, PartialEq, Eq, Structural, Debug)]
pub enum BoardError {
    OutOfBounds,
}

/// A 3x3 grid of cells, stored row-major: cell (r, c) is entry 3*r + c.
pub struct Board {
    cells: Vec<CellState>,
}

impl View for Board {
    type V = Seq<CellState>;

    closed spec fn view(&self) -> Seq<CellState> {
        self.cells@
    }
}

/// The board's invariant: exactly nine cells.
pub open spec fn board_wf(b: &Board) -> bool {
    b@.len() == CELLS
}

/// The flat, row-major position of cell (row, col).
pub open spec fn idx(row: int, col: int) -> int {
    3 * row + col
}

/// Every cell of the grid is occupied.
pub open spec fn spec_full(b: Seq<CellState>) -> bool {
    forall|i: int| 0 <= i < 9 ==> b[i] !is Empty
}

impl Board {
    /// The board's invariant: exactly nine cells.
    pub open spec fn wf(&self) -> bool {
        board_wf(self)
    }

    /// A fresh all-empty board.
    pub fn new() -> (b: Board)
        ensures
            b.wf(),
            forall|i: int| 0 <= i < 9 ==> b@[i] is Empty,
    {
        let mut cells: Vec<CellState> = Vec::new();
        let mut i: usize = 0;
        while i < CELLS
            invariant
                i <= 9,
                cells@.len() == i,
                forall|k: int| 0 <= k < i ==> cells@[k] is Empty,
            decreases 9 - i,
        {
            cells.push(CellState::Empty);
            i = i + 1;
        }
        Board { cells }
    }

    /// Raw read of a cell already known to be in bounds. Callers pre-validate
    /// coordinates; an out-of-bounds read here would be a programming error,
    /// so it is ruled out by precondition rather than reported at run time.
    pub fn at(&self, row: usize, col: usize) -> (s: CellState)
        requires
            self.wf(),
            row < 3,
            col < 3,
        ensures
            s == self@[idx(row as int, col as int)],
    {
        self.cells[3 * row + col]
    }

    /// Raw write of a cell already known to be in bounds; overwrites
    /// unconditionally (occupancy is the move validator's concern).
    pub fn write(&mut self, row: usize, col: usize, s: CellState)
        requires
            old(self).wf(),
            row < 3,
            col < 3,
        ensures
            final(self).wf(),
            final(self)@ == old(self)@.update(idx(row as int, col as int), s),
    {
        self.cells[3 * row + col] = s;
    }

    /// Bounds-checked read: the cell's state, or `OutOfBounds` exactly when
    /// row or col lies outside [0, 3).
    pub fn get(&self, row: usize, col: usize) -> (r: Result<CellState, BoardError>)
        requires
            self.wf(),
        ensures
            match r {
                Ok(s) => row < 3 && col < 3 && s == self@[idx(row as int, col as int)],
                Err(e) => (row >= 3 || col >= 3) && e is OutOfBounds,
            },
    {
        if row < SIDE && col < SIDE {
            Ok(self.at(row, col))
        } else {
            Err(BoardError::OutOfBounds)
        }
    }

    /// Bounds-checked write: overwrites the cell unconditionally, or fails
    /// with `OutOfBounds` exactly when row or col lies outside [0, 3). On
    /// failure the board is unchanged.
    pub fn set(&mut self, row: usize, col: usize, s: CellState) -> (r: Result<(), BoardError>)
        requires
            old(self).wf(),
        ensures
            final(self).wf(),
            match r {
                Ok(()) => row < 3 && col < 3 && final(self)@ == old(self)@.update(
                    idx(row as int, col as int),
                    s,
                ),
                Err(e) => (row >= 3 || col >= 3) && e is OutOfBounds && final(self)@ == old(
                    self,
                )@,
            },
    {
        if row < SIDE && col < SIDE {
            self.write(row, col, s);
            Ok(())
        } else {
            Err(BoardError::OutOfBounds)
        }
    }

    /// True exactly when no cell is `Empty`.
    pub fn is_full(&self) -> (r: bool)
        requires
            self.wf(),
        ensures
            r == spec_full(self@),
    {
        let mut i: usize = 0;
        while i < CELLS
            invariant
                self.wf(),
                i <= 9,
                forall|k: int| 0 <= k < i ==> self@[k] !is Empty,
            decreases 9 - i,
        {
            if matches!(self.cells[i], CellState::Empty) {
                return false;
            }
            i = i + 1;
        }
        true
    }
}

} // verus!
