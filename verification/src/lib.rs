//! Nine Men's Morris: the board, the rules of placing, moving (and flying)
//! and removing pieces, undo, the winner, and the text form of actions,
//! each with a contract proved by Verus.

pub mod color;
pub mod board;
pub mod action;
pub mod text;
pub mod game;
pub mod laws;

pub use color::{Color, Piece, Player};
pub use board::Point;
pub use action::{Action, ActionKind};
pub use game::{Game, GameModel, GameState, GameView, NmmGame, Phase};
