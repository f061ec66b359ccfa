use tictactoe::board::Board;
use tictactoe::board::BoardError;
use tictactoe::board::CellState;

#[test]
fn new_board_is_all_empty() {
    let b = Board::new();
    for row in 0..3 {
        for col in 0..3 {
            assert_eq!(b.get(row, col), Ok(CellState::Empty));
        }
    }
    assert!(!b.is_full());
}

#[test]
fn get_row_three_is_out_of_bounds() {
    let b = Board::new();
    assert_eq!(b.get(3, 0), Err(BoardError::OutOfBounds));
}

#[test]
fn get_col_three_is_out_of_bounds() {
    let b = Board::new();
    assert_eq!(b.get(0, 3), Err(BoardError::OutOfBounds));
}

#[test]
fn set_row_three_is_out_of_bounds() {
    let mut b = Board::new();
    assert_eq!(b.set(3, 0, CellState::Human), Err(BoardError::OutOfBounds));
}

#[test]
fn set_col_three_is_out_of_bounds() {
    let mut b = Board::new();
    assert_eq!(b.set(0, 3, CellState::Human), Err(BoardError::OutOfBounds));
}

#[test]
fn set_then_get_round_trips() {
    let mut b = Board::new();
    assert_eq!(b.set(1, 2, CellState::Human), Ok(()));
    assert_eq!(b.get(1, 2), Ok(CellState::Human));
    assert_eq!(b.set(1, 2, CellState::Opponent), Ok(()));
    assert_eq!(b.get(1, 2), Ok(CellState::Opponent));
    assert_eq!(b.get(2, 1), Ok(CellState::Empty));
}

#[test]
fn full_board_is_full() {
    let mut b = Board::new();
    for row in 0..3 {
        for col in 0..3 {
            assert!(!b.is_full());
            assert_eq!(b.set(row, col, CellState::Human), Ok(()));
        }
    }
    assert!(b.is_full());
}
