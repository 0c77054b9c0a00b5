//! A number-guessing game, as a verified library.
//!
//! The library holds everything the game decides: difficulty presets and
//! their ranges, strict parsing of the player's input, the guess/feedback
//! round, and the state machine that ties rounds together. Reading lines
//! and printing messages is left to the embedding program.

pub mod config;
pub mod error;
pub mod parse;
pub mod round;
pub mod game;
