//! The pebbles subtraction game: a user and an automated opponent take turns
//! removing pebbles from a shared pile, and whoever takes the last one wins.
//!
//! The crate holds the game's rules as verified code. [`types`] defines the
//! messages and the state snapshot, [`strategy`] chooses the opponent's moves,
//! [`game`] applies moves to a single game, and [`engine`] is the state machine
//! that owns the one game in play. [`laws`] proves what holds of every game.
//!
//! Two choices are the crate's own. Where the pile is a multiple of
//! `max_pebbles_per_turn + 1` the hard strategy has no winning move and takes
//! one pebble, so that every turn of the program shrinks the pile. And a game
//! that has a winner keeps it: a turn or a concession asked of it changes
//! nothing and is answered with that winner, until the game is restarted.
//!
//! Randomness comes from outside. The draw that chooses the first player is
//! an argument, so that the caller decides where it comes from; the easy
//! strategy draws its moves from the `rand` crate.

pub mod types;
pub mod strategy;
pub mod game;
pub mod engine;
pub mod laws;

pub use types::{DifficultyLevel, GameError, GameState, PebblesAction, PebblesEvent, PebblesInit, Player};
pub use engine::{handle, init, state, GameEngine};
