//! A submission from end to end: admission, the engine's own check, and the
//! processing of the battle as far as it goes without further input.

use crate::battle::{BattleModel, BattleState, PlayerAction};
use crate::engine::admission::{
    action_context_verdict, admit_action, get_player_index, player_index, submission_outcome,
    validate_action_context, verdict_model, with_action,
};
use crate::errors::{ApiError, ErrorModel};
use crate::ids::PlayerId;
use crate::resolution::ResolutionEngine;
use crate::ticks::{
    asked_of, no_empty_events, process_battle_ticks, ticks_result, ticks_view, Asked,
    EngineAnswers, ResolvedTurn, ResolvedTurnModel, MAX_ITERATIONS,
};
use vstd::prelude::*;

verus! {

/// The error that ends a submission before the engine is asked anything:
/// that of a participant who plays neither side, or that of the phase.
pub open spec fn rejection(
    state: BattleModel,
    player_id: Seq<char>,
    action: PlayerAction,
) -> Option<ErrorModel> {
    match player_index(state, player_id) {
        None => Some(ErrorModel::PlayerNotAuthorized { player_id }),
        Some(i) => match action_context_verdict(state, i as int, action) {
            Err(e) => Some(e),
            Ok(_) => None,
        },
    }
}

/// What a submission comes to, given the answers of the engine: its verdict
/// on the action, and its answers in the course of the processing.
///
/// A submission that is not admitted ends with the reason
/// ([`submission_outcome`]). An admitted one is placed in its slot, and the
/// battle is processed from there ([`ticks_result`]).
pub open spec fn submission_result(
    state: BattleModel,
    player_id: Seq<char>,
    action: PlayerAction,
    engine_verdict: Result<(), Seq<char>>,
    answers: EngineAnswers,
) -> Option<Result<(BattleModel, Seq<ResolvedTurnModel>), ErrorModel>> {
    match submission_outcome(state, player_id, action, engine_verdict) {
        Err(e) => Some(Err(e)),
        Ok(admitted) => ticks_result(admitted, answers),
    }
}

/// What an engine was asked, and what it answered, in the course of a
/// submission that the phase admitted: its verdict on the action and, if
/// that was favourable, the answers that it gave while the battle with the
/// action in its slot was processed.
pub struct SubmissionTrace {
    pub verdict: Result<(), String>,
    pub admitted: BattleState,
    pub asked: Asked,
}

/// Whether `trace` is what `engine` was asked and what it answered in the
/// course of a submission to the battle `state`.
#[verifier::opaque]
pub open spec fn submission_asked<E: ResolutionEngine>(
    engine: &E,
    state: BattleState,
    player_id: Seq<char>,
    action: PlayerAction,
    trace: SubmissionTrace,
) -> bool {
    player_index(state@, player_id) matches Some(i) && {
        &&& call_ensures(E::validate_player_action, (engine, &state, i, &action), trace.verdict)
        &&& trace.verdict is Ok ==> {
            &&& trace.admitted@ == with_action(state@, i as int, action)
            &&& asked_of(engine, trace.admitted, trace.asked)
        }
    }
}

/// Submit a player action and process the battle forward.
///
/// The action is checked against the phase, then by the engine. Once
/// admitted it is placed in its slot, the automated sides decide, and the
/// engine resolves turns until input is needed again, the battle ends, or
/// the ceiling is reached. The result is the battle as it then stands, with
/// the events of each resolution in order.
///
/// A submission that the phase does not admit is rejected without asking
/// the engine. Otherwise the result is what [`submission_result`] makes of
/// the answers that the engine gave to the questions that were put to it
/// ([`submission_asked`]).
pub fn submit_action<E: ResolutionEngine>(
    engine: &E,
    battle_state: BattleState,
    player_id: &PlayerId,
    action: PlayerAction,
) -> (r: Result<(BattleState, Vec<ResolvedTurn>), ApiError>)
    ensures
        rejection(battle_state@, player_id@, action) matches Some(e) ==> ticks_view(r) == Err::<
            (BattleModel, Seq<ResolvedTurnModel>),
            ErrorModel,
        >(e),
        rejection(battle_state@, player_id@, action) is None ==> exists|trace: SubmissionTrace|
         #[trigger]
            submission_asked(engine, battle_state, player_id@, action, trace)
                && submission_result(
                battle_state@,
                player_id@,
                action,
                verdict_model(trace.verdict),
                trace.asked.answers(),
            ) == Some(ticks_view(r)),
        r matches Ok((_, turns)) ==> turns.len() <= MAX_ITERATIONS && no_empty_events(
            turns.deep_view(),
        ),
        r matches Err(e) ==> !e@.from_the_store(),
{
    let ghost given = battle_state;
    let player_index = match get_player_index(&battle_state, player_id) {
        Ok(i) => i,
        Err(e) => { return Err(e); },
    };
    match validate_action_context(&battle_state, player_index, &action) {
        Ok(_) => {},
        Err(e) => { return Err(e); },
    }
    let engine_verdict = engine.validate_player_action(&battle_state, player_index, &action);
    let ghost verdict = engine_verdict;
    match admit_action(battle_state, player_id, action, engine_verdict) {
        Err(e) => {
            let r = Err(e);
            proof {
                let trace = SubmissionTrace { verdict, admitted: given, asked: arbitrary() };
                reveal(submission_asked);
                assert(submission_asked(engine, given, player_id@, action, trace));
                assert(submission_result(
                    given@,
                    player_id@,
                    action,
                    verdict_model(trace.verdict),
                    trace.asked.answers(),
                ) == Some(ticks_view(r)));
            }
            r
        },
        Ok(admitted) => {
            let ghost from = admitted;
            let r = process_battle_ticks(engine, admitted);
            proof {
                let asked = choose|asked: Asked| #[trigger]
                    asked_of(engine, from, asked) && ticks_result(from@, asked.answers()) == Some(
                        ticks_view(r),
                    );
                let trace = SubmissionTrace { verdict, admitted: from, asked };
                reveal(submission_asked);
                assert(submission_asked(engine, given, player_id@, action, trace));
                assert(submission_result(
                    given@,
                    player_id@,
                    action,
                    verdict_model(trace.verdict),
                    trace.asked.answers(),
                ) == Some(ticks_view(r)));
            }
            r
        },
    }
}

/// Get all valid actions for a player: those that the engine lists for the
/// side that `player_id` plays. A participant that plays neither side gets
/// the authorization error, and the engine is not asked.
pub fn get_player_valid_actions<E: ResolutionEngine>(
    engine: &E,
    battle_state: &BattleState,
    player_id: &PlayerId,
) -> (r: Result<Vec<PlayerAction>, ApiError>)
    ensures
        match player_index(battle_state@, player_id@) {
            Some(i) => r matches Ok(actions) && call_ensures(
                E::get_valid_actions,
                (engine, battle_state, i),
                actions,
            ),
            None => r matches Err(e) && e@ == (ErrorModel::PlayerNotAuthorized {
                player_id: player_id@,
            }),
        },
{
    match get_player_index(battle_state, player_id) {
        Ok(i) => Ok(engine.get_valid_actions(battle_state, i)),
        Err(e) => Err(e),
    }
}

} // verus!
