//! Core of a distance-guessing geography game: coordinates with explicit
//! angle units, a bounded scoring rule, running guess statistics and the
//! round state machine.
pub mod geo;
pub mod stats;
pub mod cities;
pub mod settings;
pub mod state;
pub mod game;
