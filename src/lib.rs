//! Orchestration core of the "Second Best" board game: the authoritative game
//! state, the turn-phase protocol with its take-back declaration, and the
//! decision step of the autonomous opponent.
pub mod engine;
pub mod game;
pub mod rules;
