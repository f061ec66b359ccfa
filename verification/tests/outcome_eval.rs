use tictactoe::board::Board;
use tictactoe::board::CellState;
use tictactoe::outcome::Outcome;
use tictactoe::outcome::check;

/// Builds a board from nine markers in row-major order: `X` human,
/// `O` opponent, anything else empty.
fn board_of(pattern: &str) -> Board {
    assert_eq!(pattern.len(), 9);
    let mut b = Board::new();
    for (i, m) in pattern.bytes().enumerate() {
        let s = match m {
            b'X' => CellState::Human,
            b'O' => CellState::Opponent,
            _ => CellState::Empty,
        };
        b.set(i / 3, i % 3, s).unwrap();
    }
    b
}

#[test]
fn empty_board_is_in_progress() {
    assert_eq!(check(&board_of("---------")), Outcome::InProgress);
}

#[test]
fn top_row_wins_for_human() {
    assert_eq!(check(&board_of("XXXOO----")), Outcome::HumanWins);
}

#[test]
fn middle_row_wins_for_human() {
    assert_eq!(check(&board_of("OO-XXX---")), Outcome::HumanWins);
}

#[test]
fn bottom_row_wins_for_opponent() {
    assert_eq!(check(&board_of("XX--X-OOO")), Outcome::OpponentWins);
}

#[test]
fn left_column_wins_for_opponent() {
    assert_eq!(check(&board_of("OX-OX-O-X")), Outcome::OpponentWins);
}

#[test]
fn middle_column_wins_for_human() {
    assert_eq!(check(&board_of("OX--X-OX-")), Outcome::HumanWins);
}

#[test]
fn right_column_wins_for_human() {
    assert_eq!(check(&board_of("-OX--X-OX")), Outcome::HumanWins);
}

#[test]
fn main_diagonal_wins_for_human() {
    assert_eq!(check(&board_of("XO--XO--X")), Outcome::HumanWins);
}

#[test]
fn anti_diagonal_wins_for_opponent() {
    assert_eq!(check(&board_of("XXO-OXO-X")), Outcome::OpponentWins);
}

#[test]
fn two_in_a_row_is_not_a_win() {
    assert_eq!(check(&board_of("XX-OO----")), Outcome::InProgress);
}

#[test]
fn full_board_without_a_line_is_a_draw() {
    // X O X / X O O / O X X: every row, column, and diagonal is mixed.
    assert_eq!(check(&board_of("XOXXOOOXX")), Outcome::Draw);
}

#[test]
fn evaluation_is_idempotent() {
    let boards = ["---------", "XXXOO----", "XOXXOOOXX", "X-O--X-O-"];
    for pattern in boards {
        let b = board_of(pattern);
        let first = check(&b);
        let second = check(&b);
        assert_eq!(first, second);
    }
}

#[test]
fn several_lines_take_the_first_in_checking_order() {
    // Unreachable under alternating play, but must not crash: the human's
    // top row and the opponent's bottom row are both complete, and rows are
    // checked top to bottom, so the human's line decides.
    assert_eq!(check(&board_of("XXX---OOO")), Outcome::HumanWins);
}
