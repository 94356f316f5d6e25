//! The rules of a single game: how a move changes the pile and who has won.

use vstd::prelude::*;
use crate::strategy::{easy_move, hard_move, spec_easy_move, spec_hard_move};
use crate::types::{DifficultyLevel, GameError, GameState, PebblesEvent, PebblesInit, Player};

verus! {

/// What is left of a pile of `remaining` pebbles once `pebbles` are taken:
/// never less than nothing.
pub open spec fn spec_take(remaining: u32, pebbles: u32) -> u32 {
    if pebbles >= remaining {
        0
    } else {
        (remaining - pebbles) as u32
    }
}

/// The player that a draw of the random source lets begin.
pub open spec fn spec_first_player(draw: u32) -> Player {
    if draw % 2 == 0 {
        Player::User
    } else {
        Player::Program
    }
}

/// Maps a draw of the random source to the player who begins.
pub fn first_player(draw: u32) -> (player: Player)
    ensures
        player == spec_first_player(draw),
{
    if draw % 2 == 0 {
        Player::User
    } else {
        Player::Program
    }
}

impl GameState {
    /// The snapshots that a game can be in: the turn limit is positive and
    /// within the pile's first size, the pile has not grown, and an empty
    /// pile has a winner.
    pub open spec fn wf(self) -> bool {
        &&& 0 < self.max_pebbles_per_turn <= self.pebbles_count
        &&& self.pebbles_remaining <= self.pebbles_count
        &&& self.pebbles_remaining == 0 ==> self.winner is Some
    }

    /// The games in which a move can still be made: nobody has won yet, so
    /// that the pile is not empty.
    pub open spec fn in_play(self) -> bool {
        self.wf() && self.winner is None
    }

    /// The game with these settings before anyone has moved.
    pub open spec fn spec_new(config: PebblesInit, first_player: Player) -> GameState {
        GameState {
            pebbles_count: config.pebbles_count,
            max_pebbles_per_turn: config.max_pebbles_per_turn,
            pebbles_remaining: config.pebbles_count,
            difficulty: config.difficulty,
            first_player,
            winner: None,
        }
    }

    /// The game after `who` has taken `pebbles` from the pile: whoever empties
    /// the pile has won.
    pub open spec fn after_move(self, who: Player, pebbles: u32) -> GameState {
        let left = spec_take(self.pebbles_remaining, pebbles);
        GameState {
            pebbles_remaining: left,
            winner: if left == 0 {
                Some(who)
            } else {
                self.winner
            },
            ..self
        }
    }

    /// What the program announces when it takes `pebbles` from this game's pile.
    pub open spec fn program_event(self, pebbles: u32) -> PebblesEvent {
        if spec_take(self.pebbles_remaining, pebbles) == 0 {
            PebblesEvent::Won(Player::Program)
        } else {
            PebblesEvent::CounterTurn(pebbles)
        }
    }

    /// The moves that the program's strategy may choose in this game.
    pub open spec fn legal_reply(self, pebbles: u32) -> bool {
        match self.difficulty {
            DifficultyLevel::Easy => spec_easy_move(self.max_pebbles_per_turn, pebbles),
            DifficultyLevel::Hard => pebbles == spec_hard_move(
                self.pebbles_remaining,
                self.max_pebbles_per_turn,
            ),
        }
    }

    /// The outcomes of one turn of the program: it takes a number of pebbles
    /// that its strategy may choose and announces the result.
    pub open spec fn program_turn_outcome(self, next: GameState, event: PebblesEvent) -> bool {
        exists|pebbles: u32|
            {
                &&& #[trigger] self.legal_reply(pebbles)
                &&& next == self.after_move(Player::Program, pebbles)
                &&& event == self.program_event(pebbles)
            }
    }

    /// The turns that the user may ask for: at least one pebble and no more
    /// than the limit.
    pub open spec fn accepts_turn(self, pebbles: u32) -> bool {
        1 <= pebbles <= self.max_pebbles_per_turn
    }

    /// The outcomes of an accepted turn of the user. In a game that already
    /// has a winner nothing changes and the winner is announced again.
    /// Otherwise the user wins by emptying the pile, or else the program
    /// replies with one turn of its own.
    pub open spec fn turn_outcome(self, pebbles: u32, next: GameState, event: PebblesEvent) -> bool {
        match self.winner {
            Some(winner) => next == self && event == PebblesEvent::Won(winner),
            None => {
                let moved = self.after_move(Player::User, pebbles);
                if moved.pebbles_remaining == 0 {
                    next == moved && event == PebblesEvent::Won(Player::User)
                } else {
                    moved.program_turn_outcome(next, event)
                }
            },
        }
    }

    /// The outcomes of starting a game with valid settings on a given draw:
    /// on an even draw the user begins and nothing has happened yet, on an odd
    /// draw the program has made its opening turn.
    pub open spec fn opening_outcome(
        config: PebblesInit,
        draw: u32,
        game: GameState,
        event: Option<PebblesEvent>,
    ) -> bool {
        let fresh = GameState::spec_new(config, spec_first_player(draw));
        match spec_first_player(draw) {
            Player::User => game == fresh && event is None,
            Player::Program => event matches Some(announced) && fresh.program_turn_outcome(
                game,
                announced,
            ),
        }
    }

    /// The game after the user has conceded: the program has won, unless the
    /// game already had a winner, who remains.
    pub open spec fn conceded(self) -> GameState {
        match self.winner {
            Some(_) => self,
            None => GameState { winner: Some(Player::Program), ..self },
        }
    }

    /// Sets up the game in which nobody has moved yet.
    fn fresh(config: PebblesInit, first_player: Player) -> (game: GameState)
        ensures
            game == GameState::spec_new(config, first_player),
            config.valid() ==> game.wf(),
    {
        GameState {
            pebbles_count: config.pebbles_count,
            max_pebbles_per_turn: config.max_pebbles_per_turn,
            pebbles_remaining: config.pebbles_count,
            difficulty: config.difficulty,
            first_player,
            winner: None,
        }
    }

    /// Takes `pebbles` from the pile of a game in play on behalf of `who`.
    pub fn remove(&mut self, who: Player, pebbles: u32)
        requires
            old(self).in_play(),
        ensures
            *final(self) == old(self).after_move(who, pebbles),
            final(self).wf(),
            final(self).pebbles_remaining <= old(self).pebbles_remaining,
    {
        self.pebbles_remaining = self.pebbles_remaining.saturating_sub(pebbles);
        if self.pebbles_remaining == 0 {
            self.winner = Some(who);
        }
    }

    /// Applies to a game in play a move of the program that has already been
    /// chosen, and says what the program announces.
    pub fn program_move(&mut self, pebbles: u32) -> (event: PebblesEvent)
        requires
            old(self).in_play(),
        ensures
            *final(self) == old(self).after_move(Player::Program, pebbles),
            event == old(self).program_event(pebbles),
            final(self).wf(),
    {
        self.remove(Player::Program, pebbles);
        if self.pebbles_remaining == 0 {
            PebblesEvent::Won(Player::Program)
        } else {
            PebblesEvent::CounterTurn(pebbles)
        }
    }

    /// Chooses the program's move by the game's difficulty.
    pub fn choose_move(&self) -> (pebbles: u32)
        requires
            self.wf(),
        ensures
            self.legal_reply(pebbles),
    {
        match self.difficulty {
            DifficultyLevel::Easy => easy_move(self.max_pebbles_per_turn),
            DifficultyLevel::Hard => hard_move(self.pebbles_remaining, self.max_pebbles_per_turn),
        }
    }

    /// Lets the program move once in a game in play: it chooses by the game's
    /// difficulty and takes what it chose.
    pub fn program_turn(&mut self) -> (event: PebblesEvent)
        requires
            old(self).in_play(),
        ensures
            final(self).wf(),
            old(self).program_turn_outcome(*final(self), event),
    {
        let pebbles: u32 = self.choose_move();
        self.program_move(pebbles)
    }

    /// Plays a turn of the user and, unless it ends the game, the program's
    /// reply. A turn that takes no pebble or more than the limit is refused.
    /// Once the game has a winner a turn within the limit changes nothing and
    /// is answered with that winner.
    pub fn user_turn(&mut self, pebbles: u32) -> (played: Result<PebblesEvent, GameError>)
        requires
            old(self).wf(),
        ensures
            final(self).wf(),
            old(self).accepts_turn(pebbles) ==> (played matches Ok(event) && old(
                self,
            ).turn_outcome(pebbles, *final(self), event)),
            !old(self).accepts_turn(pebbles) ==> played == Err::<PebblesEvent, GameError>(
                GameError::InvalidMove,
            ) && *final(self) == *old(self),
    {
        if pebbles == 0 || pebbles > self.max_pebbles_per_turn {
            return Err(GameError::InvalidMove);
        }
        if let Some(winner) = self.winner {
            return Ok(PebblesEvent::Won(winner));
        }
        self.remove(Player::User, pebbles);
        if self.pebbles_remaining == 0 {
            return Ok(PebblesEvent::Won(Player::User));
        }
        Ok(self.program_turn())
    }

    /// Concedes the game to the program, whatever is left on the pile, and
    /// announces the winner. A game that already had a winner keeps it.
    pub fn give_up(&mut self) -> (event: PebblesEvent)
        ensures
            *final(self) == old(self).conceded(),
            final(self).winner == Some(event->Won_0),
            event is Won,
            old(self).winner != Some(Player::User) ==> event == PebblesEvent::Won(Player::Program),
            old(self).wf() ==> final(self).wf(),
    {
        match self.winner {
            Some(winner) => PebblesEvent::Won(winner),
            None => {
                self.winner = Some(Player::Program);
                PebblesEvent::Won(Player::Program)
            },
        }
    }

    /// Starts a game: checks the settings, lets the draw choose who begins,
    /// and lets the program make its opening turn where it begins. `draw` is
    /// what the random source supplied, `None` where it failed.
    pub fn start(config: PebblesInit, draw: Option<u32>) -> (started: Result<
        (GameState, Option<PebblesEvent>),
        GameError,
    >)
        ensures
            !config.valid() ==> started == Err::<(GameState, Option<PebblesEvent>), GameError>(
                GameError::InvalidConfiguration,
            ),
            config.valid() && draw is None ==> started == Err::<
                (GameState, Option<PebblesEvent>),
                GameError,
            >(GameError::RandomSourceFailure),
            config.valid() && draw is Some ==> (started matches Ok(opened) && opened.0.wf()
                && GameState::opening_outcome(config, draw->Some_0, opened.0, opened.1)),
    {
        if !config.is_valid() {
            return Err(GameError::InvalidConfiguration);
        }
        let beginner = match draw {
            Some(drawn) => first_player(drawn),
            None => {
                return Err(GameError::RandomSourceFailure);
            },
        };
        let mut game = GameState::fresh(config, beginner);
        match beginner {
            Player::User => Ok((game, None)),
            Player::Program => {
                let event = game.program_turn();
                Ok((game, Some(event)))
            },
        }
    }
}

} // verus!
