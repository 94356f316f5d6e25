//! Messages exchanged with the game and the snapshot of a game in play.

use vstd::prelude::*;

verus! {

/// How the automated opponent chooses its moves.
#[derive(Clone, Copy, Debug, PartialEq, Eq, Structural)]
pub enum DifficultyLevel {
    /// A random legal number of pebbles.
    Easy,
    /// The move that leaves a multiple of `max_pebbles_per_turn + 1`, where one exists.
    Hard,
}

/// One of the two sides of a game.
#[derive(Clone, Copy, Debug, PartialEq, Eq, Structural)]
pub enum Player {
    /// The human side, which moves through [`PebblesAction::Turn`].
    User,
    /// The automated opponent.
    Program,
}

/// The settings of a new game.
#[derive(Clone, Copy, Debug, PartialEq, Eq, Structural)]
pub struct PebblesInit {
    pub difficulty: DifficultyLevel,
    pub pebbles_count: u32,
    pub max_pebbles_per_turn: u32,
}

/// A request of the user.
#[derive(Clone, Copy, Debug, PartialEq, Eq, Structural)]
pub enum PebblesAction {
    /// Remove this many pebbles from the pile.
    Turn(u32),
    /// Concede the game to the program.
    GiveUp,
    /// Abandon the game in play and start a new one with these settings.
    Restart { difficulty: DifficultyLevel, pebbles_count: u32, max_pebbles_per_turn: u32 },
}

/// What the game answers to a request.
#[derive(Clone, Copy, Debug, PartialEq, Eq, Structural)]
pub enum PebblesEvent {
    /// The program removed this many pebbles and the game goes on.
    CounterTurn(u32),
    /// The game has ended with this winner.
    Won(Player),
}

/// Why a request was refused. A refused request changes nothing.
///
/// A game that has a winner refuses nothing more than one in play does: a
/// turn or a concession then changes nothing and is answered with the winner.
#[derive(Clone, Copy, Debug, PartialEq, Eq, Structural)]
pub enum GameError {
    /// The settings do not satisfy `0 < max_pebbles_per_turn <= pebbles_count`.
    InvalidConfiguration,
    /// The turn removes no pebble or more than `max_pebbles_per_turn`.
    InvalidMove,
    /// No game has been started yet.
    Uninitialized,
    /// The random source could not supply the draw that chooses the first player.
    RandomSourceFailure,
}

/// The snapshot of one game.
#[derive(Clone, Copy, Debug, PartialEq, Eq)]
pub struct GameState {
    /// The size of the pile when the game began.
    pub pebbles_count: u32,
    pub max_pebbles_per_turn: u32,
    pub pebbles_remaining: u32,
    pub difficulty: DifficultyLevel,
    pub first_player: Player,
    pub winner: Option<Player>,
}

impl PebblesInit {
    /// The settings that a game can be started with.
    pub open spec fn valid(self) -> bool {
        0 < self.max_pebbles_per_turn <= self.pebbles_count
    }

    /// Tells whether a game can be started with these settings.
    pub fn is_valid(&self) -> (ok: bool)
        ensures
            ok == self.valid(),
    {
        self.pebbles_count != 0 && self.max_pebbles_per_turn != 0
            && self.max_pebbles_per_turn <= self.pebbles_count
    }
}

} // verus!
