use tictactoe::board::Board;
use tictactoe::board::CellState;
use tictactoe::validate::MoveError;
use tictactoe::validate::message;
use tictactoe::validate::validate_move;

#[test]
fn well_formed_move_is_accepted() {
    let b = Board::new();
    assert_eq!(validate_move("1,2", &b), Ok((1, 2)));
}

#[test]
fn surrounding_whitespace_is_tolerated() {
    let b = Board::new();
    assert_eq!(validate_move("  0,0  \n", &b), Ok((0, 0)));
    assert_eq!(validate_move("\t2,2\r\n", &b), Ok((2, 2)));
}

#[test]
fn three_tokens_are_malformed() {
    let b = Board::new();
    assert_eq!(validate_move("1,1,1", &b), Err(MoveError::MalformedInput));
}

#[test]
fn missing_comma_is_malformed() {
    let b = Board::new();
    assert_eq!(validate_move("11", &b), Err(MoveError::MalformedInput));
    assert_eq!(validate_move("", &b), Err(MoveError::MalformedInput));
}

#[test]
fn letters_are_non_numeric() {
    let b = Board::new();
    assert_eq!(validate_move("a,1", &b), Err(MoveError::NonNumericCoordinate));
}

#[test]
fn empty_token_is_non_numeric() {
    let b = Board::new();
    assert_eq!(validate_move(",1", &b), Err(MoveError::NonNumericCoordinate));
    assert_eq!(validate_move("1,", &b), Err(MoveError::NonNumericCoordinate));
}

#[test]
fn inner_whitespace_is_non_numeric() {
    let b = Board::new();
    assert_eq!(validate_move("1 ,1", &b), Err(MoveError::NonNumericCoordinate));
}

#[test]
fn leading_plus_parses_as_non_negative_integer() {
    let b = Board::new();
    assert_eq!(validate_move("+1,+0", &b), Ok((1, 0)));
}

#[test]
fn row_three_is_out_of_bounds() {
    let b = Board::new();
    assert_eq!(validate_move("3,0", &b), Err(MoveError::OutOfBoundsCoordinate));
}

#[test]
fn huge_coordinate_is_out_of_bounds() {
    let b = Board::new();
    assert_eq!(
        validate_move("0,99999999999999999999", &b),
        Err(MoveError::OutOfBoundsCoordinate)
    );
}

#[test]
fn occupied_cell_is_rejected() {
    let mut b = Board::new();
    b.set(1, 1, CellState::Opponent).unwrap();
    assert_eq!(validate_move("1,1", &b), Err(MoveError::OccupiedCell));
}

#[test]
fn validation_does_not_mutate_the_board() {
    let b = Board::new();
    assert_eq!(validate_move("0,0", &b), Ok((0, 0)));
    assert_eq!(b.get(0, 0), Ok(CellState::Empty));
}

#[test]
fn each_rejection_reason_has_its_own_message() {
    let texts = [
        message(MoveError::MalformedInput),
        message(MoveError::NonNumericCoordinate),
        message(MoveError::OutOfBoundsCoordinate),
        message(MoveError::OccupiedCell),
    ];
    assert_eq!(texts[0], "Please enter the coordinates in the format: x,y");
    assert_eq!(texts[1], "Invalid input. Please enter valid numbers.");
    assert_eq!(texts[2], "Coordinates out of bounds. Please try again.");
    assert_eq!(texts[3], "Invalid move. Cell is already occupied. Try again.");
    for i in 0..4 {
        for j in 0..4 {
            if i != j {
                assert_ne!(texts[i], texts[j]);
            }
        }
    }
}
