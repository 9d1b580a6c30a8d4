//! Rules engine for a two-player hidden-information board game on an 8x8
//! grid, together with the line-oriented text protocol that drives it.
//!
//! Each player secretly deploys four Link and four Virus cards, moves them
//! one step at a time, captures opposing cards, and wins by collecting four
//! Link cards (their own score) or by forcing four Virus cards onto the
//! opponent. Every mutating operation either fully commits or rejects with a
//! typed error and leaves the state unchanged; the contracts below pin down
//! both outcomes exactly.

pub mod board;
pub mod laws;
pub mod model;
pub mod net;
pub mod player;
pub mod protocol;
pub mod state;
pub mod types;
pub mod util;

pub use board::Board;
pub use player::PlayerState;
pub use state::GameState;

pub use types::GameError;
pub use types::GamePhase;
pub use types::MoveOutcome;
pub use types::OnlineCard;
pub use types::OnlineCardType;
pub use types::PlayerId;
pub use types::Position;
pub use types::StackChoice;
