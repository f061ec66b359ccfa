//! Verified core of a two-player tic-tac-toe session on a fixed 3x3 grid.
//!
//! The library holds everything with decision-making content: the board,
//! move validation, the automated opponent's scan policy, outcome
//! evaluation, and the turn-by-turn state machine. Reading lines and
//! printing the board are left to the surrounding program.

pub mod board;
pub mod engine;
pub mod opponent;
pub mod outcome;
pub mod validate;

pub use board::Board;
pub use board::BoardError;
pub use board::CellState;
pub use engine::Phase;
pub use outcome::Outcome;
pub use validate::MoveError;
