//! The engine that owns the one game in play and answers the requests made of it.

use vstd::prelude::*;
use crate::types::{GameError, GameState, PebblesAction, PebblesEvent, PebblesInit, Player};

verus! {

/// The owner of the game in play. It holds no game until one is started, and
/// from then on exactly one, which only its operations change.
pub struct GameEngine {
    game: Option<GameState>,
}

/// How starting a game with `config` on `draw` relates the engine's game
/// before and after to the answer: invalid settings and a failed draw are
/// refused, in this order, and leave the game as it was; otherwise the new
/// game replaces the old one, of which nothing remains.
pub open spec fn spec_started(
    config: PebblesInit,
    draw: Option<u32>,
    before: Option<GameState>,
    after: Option<GameState>,
    answer: Result<Option<PebblesEvent>, GameError>,
) -> bool {
    if !config.valid() {
        answer == Err::<Option<PebblesEvent>, GameError>(GameError::InvalidConfiguration) && after
            == before
    } else if draw is None {
        answer == Err::<Option<PebblesEvent>, GameError>(GameError::RandomSourceFailure) && after
            == before
    } else {
        &&& answer matches Ok(event)
        &&& after matches Some(game)
        &&& GameState::opening_outcome(config, draw->Some_0, game, event)
    }
}

/// How a turn of `pebbles` relates the game before and after to the answer:
/// a turn that the game does not accept is refused and changes nothing.
pub open spec fn spec_turned(
    pebbles: u32,
    before: GameState,
    after: GameState,
    answer: Result<PebblesEvent, GameError>,
) -> bool {
    if before.accepts_turn(pebbles) {
        answer matches Ok(event) && before.turn_outcome(pebbles, after, event)
    } else {
        answer == Err::<PebblesEvent, GameError>(GameError::InvalidMove) && after == before
    }
}

/// How a request relates the engine's game before and after to the answer.
/// Without a game every request is refused. A turn is answered with what the
/// game announces, a concession with the winner that it leaves, and a restart
/// as the start of a game is.
pub open spec fn spec_handled(
    action: PebblesAction,
    draw: Option<u32>,
    before: Option<GameState>,
    after: Option<GameState>,
    answer: Result<Option<PebblesEvent>, GameError>,
) -> bool {
    match before {
        None => answer == Err::<Option<PebblesEvent>, GameError>(GameError::Uninitialized)
            && after is None,
        Some(game) => match action {
            PebblesAction::Turn(pebbles) => {
                &&& after matches Some(next)
                &&& if game.accepts_turn(pebbles) {
                    answer matches Ok(Some(event)) && game.turn_outcome(pebbles, next, event)
                } else {
                    answer == Err::<Option<PebblesEvent>, GameError>(GameError::InvalidMove)
                        && next == game
                }
            },
            PebblesAction::GiveUp => {
                &&& after == Some(game.conceded())
                &&& game.conceded().winner matches Some(winner)
                &&& answer == Ok::<Option<PebblesEvent>, GameError>(
                    Some(PebblesEvent::Won(winner)),
                )
            },
            PebblesAction::Restart { difficulty, pebbles_count, max_pebbles_per_turn } => {
                spec_started(
                    PebblesInit { difficulty, pebbles_count, max_pebbles_per_turn },
                    draw,
                    before,
                    after,
                    answer,
                )
            },
        },
    }
}

impl GameEngine {
    /// The game in play, if one has been started.
    pub closed spec fn view(&self) -> Option<GameState> {
        self.game
    }

    /// The engine's game, where it has one, is a game that play can reach.
    pub open spec fn wf(&self) -> bool {
        self@ matches Some(game) ==> game.wf()
    }

    /// An engine without a game.
    pub fn new() -> (engine: GameEngine)
        ensures
            engine@ is None,
            engine.wf(),
    {
        GameEngine { game: None }
    }

    /// Starts a game, in place of the one in play if there is one. `draw` is
    /// what the random source supplied, `None` where it failed.
    pub fn initialize(&mut self, config: PebblesInit, draw: Option<u32>) -> (answer: Result<
        Option<PebblesEvent>,
        GameError,
    >)
        requires
            old(self).wf(),
        ensures
            final(self).wf(),
            spec_started(config, draw, old(self)@, final(self)@, answer),
    {
        match GameState::start(config, draw) {
            Ok((game, event)) => {
                self.game = Some(game);
                Ok(event)
            },
            Err(error) => Err(error),
        }
    }

    /// Plays a turn of the user in the game in play, and the program's reply
    /// unless the turn ends the game.
    pub fn apply_turn(&mut self, pebbles: u32) -> (answer: Result<PebblesEvent, GameError>)
        requires
            old(self).wf(),
        ensures
            final(self).wf(),
            old(self)@ is None ==> answer == Err::<PebblesEvent, GameError>(
                GameError::Uninitialized,
            ) && final(self)@ is None,
            old(self)@ is Some ==> final(self)@ is Some && spec_turned(
                pebbles,
                old(self)@->Some_0,
                final(self)@->Some_0,
                answer,
            ),
    {
        match &mut self.game {
            Some(game) => game.user_turn(pebbles),
            None => Err(GameError::Uninitialized),
        }
    }

    /// Concedes the game in play to the program and announces the winner:
    /// the program, unless the user had already won.
    pub fn give_up(&mut self) -> (answer: Result<PebblesEvent, GameError>)
        requires
            old(self).wf(),
        ensures
            final(self).wf(),
            old(self)@ is None ==> answer == Err::<PebblesEvent, GameError>(
                GameError::Uninitialized,
            ) && final(self)@ is None,
            old(self)@ matches Some(game) ==> final(self)@ == Some(game.conceded())
                && game.conceded().winner is Some && answer == Ok::<PebblesEvent, GameError>(
                PebblesEvent::Won(game.conceded().winner->Some_0),
            ),
    {
        match &mut self.game {
            Some(game) => Ok(game.give_up()),
            None => Err(GameError::Uninitialized),
        }
    }

    /// Abandons the game in play and starts a new one. Without a game in play
    /// there is nothing to restart.
    pub fn restart(&mut self, config: PebblesInit, draw: Option<u32>) -> (answer: Result<
        Option<PebblesEvent>,
        GameError,
    >)
        requires
            old(self).wf(),
        ensures
            final(self).wf(),
            old(self)@ is None ==> answer == Err::<Option<PebblesEvent>, GameError>(
                GameError::Uninitialized,
            ) && final(self)@ is None,
            old(self)@ is Some ==> spec_started(config, draw, old(self)@, final(self)@, answer),
    {
        if self.game.is_none() {
            return Err(GameError::Uninitialized);
        }
        self.initialize(config, draw)
    }

    /// Hands out a copy of the game in play.
    pub fn read_state(&self) -> (answer: Result<GameState, GameError>)
        ensures
            self@ is None ==> answer == Err::<GameState, GameError>(GameError::Uninitialized),
            self@ is Some ==> answer == Ok::<GameState, GameError>(self@->Some_0),
    {
        match self.game {
            Some(game) => Ok(game),
            None => Err(GameError::Uninitialized),
        }
    }
}

/// Answers the message that sets the first game up.
pub fn init(engine: &mut GameEngine, config: PebblesInit, draw: Option<u32>) -> (answer: Result<
    Option<PebblesEvent>,
    GameError,
>)
    requires
        old(engine).wf(),
    ensures
        final(engine).wf(),
        spec_started(config, draw, old(engine)@, final(engine)@, answer),
{
    engine.initialize(config, draw)
}

/// Answers a request of the user. `draw` is used by a restart alone: it is
/// what the random source supplied for the new game, `None` where it failed.
pub fn handle(engine: &mut GameEngine, action: PebblesAction, draw: Option<u32>) -> (answer: Result<
    Option<PebblesEvent>,
    GameError,
>)
    requires
        old(engine).wf(),
    ensures
        final(engine).wf(),
        spec_handled(action, draw, old(engine)@, final(engine)@, answer),
{
    match action {
        PebblesAction::Turn(pebbles) => match engine.apply_turn(pebbles) {
            Ok(event) => Ok(Some(event)),
            Err(error) => Err(error),
        },
        PebblesAction::GiveUp => match engine.give_up() {
            Ok(event) => Ok(Some(event)),
            Err(error) => Err(error),
        },
        PebblesAction::Restart { difficulty, pebbles_count, max_pebbles_per_turn } => {
            engine.restart(PebblesInit { difficulty, pebbles_count, max_pebbles_per_turn }, draw)
        },
    }
}

/// Answers the query for the game in play.
pub fn state(engine: &GameEngine) -> (answer: Result<GameState, GameError>)
    ensures
        engine@ is None ==> answer == Err::<GameState, GameError>(GameError::Uninitialized),
        engine@ is Some ==> answer == Ok::<GameState, GameError>(engine@->Some_0),
{
    engine.read_state()
}

} // verus!
