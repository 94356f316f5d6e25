//! What holds of every game, proved from the rules.

use vstd::prelude::*;
use crate::engine::{spec_handled, spec_started, spec_turned};
use crate::game::{spec_first_player, spec_take};
use crate::strategy::{
    lemma_hard_move_is_legal, lemma_hard_move_leaves_multiple, lemma_turn_breaks_multiple,
};
use crate::types::{DifficultyLevel, GameError, GameState, PebblesAction, PebblesEvent, PebblesInit, Player};

verus! {

/// In a game that is still open the program's strategy, easy or hard, takes
/// at least one pebble and no more than a turn may take.
pub proof fn lemma_reply_is_a_turn(game: GameState, pebbles: u32)
    requires
        game.in_play(),
        game.legal_reply(pebbles),
    ensures
        1 <= pebbles <= game.max_pebbles_per_turn,
        game.difficulty == DifficultyLevel::Hard ==> pebbles <= game.pebbles_remaining,
{
    if game.difficulty == DifficultyLevel::Hard {
        lemma_hard_move_is_legal(game.pebbles_remaining, game.max_pebbles_per_turn);
    }
}

/// A game that starts with valid settings keeps them, and the draw decides
/// who begins. Where the user begins the pile is whole, there is no winner and
/// nothing is announced. Where the program begins it has taken between one
/// pebble and the turn limit and announced it. Either way there is a winner
/// only if the pile is empty, which takes a pile no larger than the turn
/// limit, and that winner is the program.
pub proof fn lemma_opening(
    config: PebblesInit,
    draw: u32,
    game: GameState,
    event: Option<PebblesEvent>,
)
    requires
        config.valid(),
        GameState::opening_outcome(config, draw, game, event),
    ensures
        game.wf(),
        game.pebbles_count == config.pebbles_count,
        game.max_pebbles_per_turn == config.max_pebbles_per_turn,
        game.difficulty == config.difficulty,
        game.first_player == spec_first_player(draw),
        game.first_player == Player::User ==> game.pebbles_remaining == config.pebbles_count
            && game.winner is None && event is None,
        game.first_player == Player::Program ==> game.pebbles_remaining < config.pebbles_count
            && game.pebbles_remaining + config.max_pebbles_per_turn >= config.pebbles_count
            && event is Some,
        game.winner is Some <==> game.pebbles_remaining == 0,
        game.winner is Some ==> game.winner == Some(Player::Program) && config.pebbles_count
            <= config.max_pebbles_per_turn && event == Some(PebblesEvent::Won(Player::Program)),
        game.winner is None && event is Some ==> event == Some(
            PebblesEvent::CounterTurn((config.pebbles_count - game.pebbles_remaining) as u32),
        ),
{
    let fresh = GameState::spec_new(config, spec_first_player(draw));
    if spec_first_player(draw) == Player::Program {
        let pebbles = choose|pebbles: u32|
            {
                &&& #[trigger] fresh.legal_reply(pebbles)
                &&& game == fresh.after_move(Player::Program, pebbles)
                &&& event->Some_0 == fresh.program_event(pebbles)
            };
        lemma_reply_is_a_turn(fresh, pebbles);
    }
}

/// A turn that a game in play accepts shrinks the pile. The user's pebbles leave
/// it, as far as it holds that many; if that empties the pile the user has won
/// and the program does not move. Otherwise the program replies with between
/// one pebble and the turn limit, so that over the whole round the pile
/// shrinks by at least the user's pebbles and at most by the turn limit more.
/// The game has a winner afterwards exactly if the pile is empty.
pub proof fn lemma_turn_bounds(before: GameState, pebbles: u32, after: GameState, event: PebblesEvent)
    requires
        before.in_play(),
        before.accepts_turn(pebbles),
        before.turn_outcome(pebbles, after, event),
    ensures
        after.wf(),
        after.pebbles_count == before.pebbles_count,
        after.max_pebbles_per_turn == before.max_pebbles_per_turn,
        after.difficulty == before.difficulty,
        after.first_player == before.first_player,
        after.pebbles_remaining < before.pebbles_remaining,
        after.pebbles_remaining <= spec_take(before.pebbles_remaining, pebbles),
        after.pebbles_remaining + pebbles + before.max_pebbles_per_turn
            >= before.pebbles_remaining,
        pebbles <= before.pebbles_remaining ==> before.pebbles_remaining - pebbles
            - before.max_pebbles_per_turn <= after.pebbles_remaining <= before.pebbles_remaining
            - pebbles,
        event == PebblesEvent::Won(Player::User) <==> spec_take(before.pebbles_remaining, pebbles)
            == 0,
        event == PebblesEvent::Won(Player::User) ==> after == before.after_move(
            Player::User,
            pebbles,
        ) && after.winner == Some(Player::User),
        event == PebblesEvent::Won(Player::User) && pebbles <= before.pebbles_remaining
            ==> after.pebbles_remaining == before.pebbles_remaining - pebbles,
        after.winner is Some <==> after.pebbles_remaining == 0,
        after.winner is Some <==> event is Won,
        event matches PebblesEvent::Won(winner) ==> after.winner == Some(winner),
        event matches PebblesEvent::CounterTurn(reply) ==> 1 <= reply
            <= before.max_pebbles_per_turn && after.pebbles_remaining == spec_take(
            before.pebbles_remaining,
            pebbles,
        ) - reply,
{
    let moved = before.after_move(Player::User, pebbles);
    if moved.pebbles_remaining != 0 {
        let reply = choose|reply: u32|
            {
                &&& #[trigger] moved.legal_reply(reply)
                &&& after == moved.after_move(Player::Program, reply)
                &&& event == moved.program_event(reply)
            };
        lemma_reply_is_a_turn(moved, reply);
    }
}

/// A turn of no pebble, and one of more pebbles than the limit, is refused as
/// an invalid move and leaves the game as it was.
pub proof fn lemma_turn_out_of_range_refused(
    before: GameState,
    pebbles: u32,
    after: GameState,
    answer: Result<PebblesEvent, GameError>,
)
    requires
        pebbles == 0 || pebbles > before.max_pebbles_per_turn,
        spec_turned(pebbles, before, after, answer),
    ensures
        answer == Err::<PebblesEvent, GameError>(GameError::InvalidMove),
        after == before,
{
}

/// The winner of a game is settled once: whatever turn or concession is
/// asked of a game that has a winner, the game stays as it is, and an
/// accepted one is answered with that winner.
pub proof fn lemma_winner_is_final(
    before: GameState,
    action: PebblesAction,
    draw: Option<u32>,
    after: Option<GameState>,
    answer: Result<Option<PebblesEvent>, GameError>,
)
    requires
        before.winner is Some,
        action is Turn || action is GiveUp,
        spec_handled(action, draw, Some(before), after, answer),
    ensures
        after == Some(before),
        answer is Ok ==> answer == Ok::<Option<PebblesEvent>, GameError>(
            Some(PebblesEvent::Won(before.winner->Some_0)),
        ),
        answer is Err <==> (action matches PebblesAction::Turn(pebbles) && !before.accepts_turn(
            pebbles,
        )),
{
}

/// Conceding always succeeds and leaves the pile as it was. Unless the user
/// had already won, the program is announced and recorded as the winner,
/// whatever is left on the pile.
pub proof fn lemma_concession(
    before: GameState,
    draw: Option<u32>,
    after: Option<GameState>,
    answer: Result<Option<PebblesEvent>, GameError>,
)
    requires
        spec_handled(PebblesAction::GiveUp, draw, Some(before), after, answer),
    ensures
        answer is Ok,
        after matches Some(game) && game.pebbles_remaining == before.pebbles_remaining
            && game.winner is Some && answer == Ok::<Option<PebblesEvent>, GameError>(
            Some(PebblesEvent::Won(game.winner->Some_0)),
        ),
        before.winner != Some(Player::User) ==> answer == Ok::<Option<PebblesEvent>, GameError>(
            Some(PebblesEvent::Won(Player::Program)),
        ) && after->Some_0.winner == Some(Player::Program),
{
}

/// A restart with valid settings and a draw succeeds and opens a game as the
/// first start does; the game that it replaces has no part in the result:
/// whatever can follow the restart of one game can follow that of any other.
pub proof fn lemma_restart_forgets(
    config: PebblesInit,
    draw: u32,
    before: GameState,
    other: GameState,
    after: Option<GameState>,
    answer: Result<Option<PebblesEvent>, GameError>,
)
    requires
        config.valid(),
        spec_handled(
            PebblesAction::Restart {
                difficulty: config.difficulty,
                pebbles_count: config.pebbles_count,
                max_pebbles_per_turn: config.max_pebbles_per_turn,
            },
            Some(draw),
            Some(before),
            after,
            answer,
        ),
    ensures
        answer matches Ok(event) && after matches Some(game) && GameState::opening_outcome(
            config,
            draw,
            game,
            event,
        ),
        spec_started(config, Some(draw), None, after, answer),
        spec_handled(
            PebblesAction::Restart {
                difficulty: config.difficulty,
                pebbles_count: config.pebbles_count,
                max_pebbles_per_turn: config.max_pebbles_per_turn,
            },
            Some(draw),
            Some(other),
            after,
            answer,
        ),
{
}

/// The hard strategy keeps a won position. Where the user faces a pile that
/// is a positive multiple of the turn limit plus one, no turn of the user
/// wins, and after the program's reply the game is won by the program or the
/// user faces a smaller such pile.
pub proof fn lemma_hard_strategy_holds_the_win(
    before: GameState,
    pebbles: u32,
    after: GameState,
    event: PebblesEvent,
)
    requires
        before.in_play(),
        before.difficulty == DifficultyLevel::Hard,
        before.pebbles_remaining as int % (before.max_pebbles_per_turn as int + 1) == 0,
        before.accepts_turn(pebbles),
        before.turn_outcome(pebbles, after, event),
    ensures
        after.winner != Some(Player::User),
        after.pebbles_remaining as int % (after.max_pebbles_per_turn as int + 1) == 0,
        after.pebbles_remaining < before.pebbles_remaining,
        after.winner is None ==> after.pebbles_remaining > 0,
{
    let limit = before.max_pebbles_per_turn;
    vstd::arithmetic::div_mod::lemma_mod_is_zero(
        before.pebbles_remaining as nat,
        (limit + 1) as nat,
    );
    lemma_turn_breaks_multiple(before.pebbles_remaining, limit, pebbles);
    let moved = before.after_move(Player::User, pebbles);
    lemma_hard_move_leaves_multiple(moved.pebbles_remaining, limit);
    lemma_turn_bounds(before, pebbles, after, event);
    vstd::arithmetic::div_mod::lemma_small_mod(0, (limit + 1) as nat);
}

} // verus!
