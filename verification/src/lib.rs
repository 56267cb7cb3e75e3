//! Mastermind: scoring of guesses against a hidden code, the turn-by-turn
//! state machine of a single game, and the board as text for a terminal.

pub mod board;
pub mod code;
pub mod draft;
pub mod feedback;
pub mod game;
pub mod multiset;
pub mod peg;
pub mod render;
pub mod session;
pub mod settings;

pub use draft::{Command, Draft, Key};
pub use feedback::Feedback;
pub use game::{Game, Move, Outcome, Rejected, Status, Turn};
pub use peg::ColorPeg;
pub use render::Tint;
pub use session::{Reaction, Session};
pub use settings::Settings;
