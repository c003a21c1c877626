//! What holds of the session layer as a whole.

use crate::battle::{
    BattleModel, BattleState, GameState, PlayerAction, PlayerModel, PokemonModel,
};
use crate::database::Db;
use crate::engine::{
    action_context_verdict, bench_standing, can_act, lemma_standing_without, opponent_view_of,
    player_index, player_view_of, queue_with, rejection, slot_summary, standing,
    submission_asked, submission_outcome, submission_result, verdict_model, with_action,
    SubmissionTrace,
};
use crate::errors::{ApiError, ErrorModel};
use crate::handlers::{
    events_answer, events_answered, explains_error, explains_record, later, read_error,
    service_rejection, state_answer, submission_answered, updated_record,
};
use crate::resolution::ResolutionEngine;
use crate::ticks::{
    all_events, asked_of, fresh, kept_events, ready_for_resolution, recorded,
    resolutions_taken, run, sides_exist, tick_step, ticks_result, DriverModel, EngineAnswers,
    Resolution, ResolvedTurnModel, TickStep, MAX_ITERATIONS,
};
use crate::turn_log::{
    entry_of, lemma_appends_keep_order, lemma_appends_only, lemma_later_turns_gain_entries,
    log_events, log_with_turn, log_with_turns, recent_logs, turn_numbers_increasing,
    turns_advance,
};
use crate::types::{
    GetBattleEventsRequest, GetBattleEventsResponse, StoredModel, SubmitActionRequest,
    SubmitActionResponse, TurnLogModel,
};
use vstd::prelude::*;

verus! {

/// A submission from one side alone does not set a turn off.
///
/// While both sides owe an action and neither has submitted, an admitted
/// action from one side fills that side's slot and changes nothing else:
/// the phase and the turn number stay, and the other slot stays empty. With
/// no action from an automated side, the driver then asks for no
/// resolution, whatever the engine reports: the submission comes to the
/// battle with that one slot filled, and to no events.
pub proof fn lemma_lone_submission_waits(
    state: BattleModel,
    player_id: Seq<char>,
    side: usize,
    action: PlayerAction,
    engine_ready: bool,
    iterations: u32,
)
    requires
        state.well_formed(),
        state.game_state is WaitingForActions,
        state.action_queue[0] is None,
        state.action_queue[1] is None,
        player_index(state, player_id) == Some(side),
    ensures
        submission_outcome(state, player_id, action, Ok(())) == Ok::<BattleModel, ErrorModel>(
            with_action(state, side as int, action),
        ),
        with_action(state, side as int, action).game_state == state.game_state,
        with_action(state, side as int, action).turn_number == state.turn_number,
        with_action(state, side as int, action).action_queue[side as int] == Some(action),
        with_action(state, side as int, action).action_queue[1 - side] is None,
        queue_with(with_action(state, side as int, action).action_queue, Seq::empty())
            == with_action(state, side as int, action).action_queue,
        tick_step(with_action(state, side as int, action), iterations, engine_ready)
            == TickStep::Finished,
        rejection(state, player_id, action) is None,
        submission_result(
            state,
            player_id,
            action,
            Ok(()),
            EngineAnswers { npc_actions: Seq::empty(), engine_ready, script: Seq::empty() },
        ) == Some(
            Ok::<(BattleModel, Seq<ResolvedTurnModel>), ErrorModel>(
                (with_action(state, side as int, action), Seq::empty()),
            ),
        ),
{
}

/// A battle that has ended admits nothing.
///
/// In a terminal phase a submission from either side is rejected with the
/// error that names the phase, whatever the action and before the engine
/// is asked, and the driver asks for no resolution. A rejected submission
/// yields no battle and leaves the store as it was, so the turn number
/// cannot change.
pub proof fn lemma_ended_battle_rejects(
    state: BattleModel,
    player_id: Seq<char>,
    action: PlayerAction,
    engine_verdict: Result<(), Seq<char>>,
    engine_ready: bool,
    iterations: u32,
)
    requires
        state.game_state.is_terminal(),
        player_index(state, player_id) is Some,
    ensures
        submission_outcome(state, player_id, action, engine_verdict) == Err::<
            BattleModel,
            ErrorModel,
        >(ErrorModel::InvalidBattleState { state: state.game_state.name_spec() }),
        rejection(state, player_id, action) == Some(
            ErrorModel::InvalidBattleState { state: state.game_state.name_spec() },
        ),
        tick_step(state, iterations, engine_ready) == TickStep::Finished,
{
}

/// The service takes no submission for a battle that has ended.
///
/// For a stored battle in a terminal phase, a submission from either side
/// is rejected with the error that names the phase: the service answers
/// with that error (or with a database error, if the store fails), and as
/// every failed submission leaves the store as it was, the record and its
/// turn number stay.
pub proof fn lemma_service_rejects_ended_battle(
    records: Map<u128, StoredModel>,
    battle_id: u128,
    player_id: Seq<char>,
    action: PlayerAction,
)
    requires
        records.contains_key(battle_id),
        records[battle_id].battle_state.game_state.is_terminal(),
        player_index(records[battle_id].battle_state, player_id) is Some,
    ensures
        service_rejection(records, battle_id, player_id, action) == Some(
            ErrorModel::InvalidBattleState {
                state: records[battle_id].battle_state.game_state.name_spec(),
            },
        ),
{
}

/// A player's view does not depend on the bench of the other side.
///
/// Two battles that differ only in the other side's roster, and whose other
/// sides show the same active Pokémon and have equally many Pokémon
/// standing on the bench, look the same to the player: of the other side's
/// roster nothing but the active Pokémon's public facts and that count is
/// shown.
pub proof fn lemma_opponent_bench_hidden(first: BattleModel, second: BattleModel, side: int)
    requires
        first.well_formed(),
        second.well_formed(),
        side == 0 || side == 1,
        first.game_state == second.game_state,
        first.turn_number == second.turn_number,
        first.action_queue == second.action_queue,
        first.players[side] == second.players[side],
        first.players[1 - side].player_name == second.players[1 - side].player_name,
        slot_summary(first.players[1 - side].active_pokemon()) == slot_summary(
            second.players[1 - side].active_pokemon(),
        ),
        bench_standing(first.players[1 - side]) == bench_standing(second.players[1 - side]),
    ensures
        player_view_of(first, side) == player_view_of(second, side),
{
}

/// Replacing a Pokémon on the bench by another that has fainted, or not,
/// as the first had changes nothing in what the other side is shown.
pub proof fn lemma_bench_swap_invisible(player: PlayerModel, slot: int, other: PokemonModel)
    requires
        0 <= slot < player.team.len(),
        slot != player.active_pokemon_index,
        player.team[slot] matches Some(p) && p.fainted == other.fainted,
    ensures
        opponent_view_of(PlayerModel { team: player.team.update(slot, Some(other)), ..player })
            == opponent_view_of(player),
{
    let pred = |s: Option<PokemonModel>| standing(s);
    let swapped = PlayerModel { team: player.team.update(slot, Some(other)), ..player };
    let active = player.active_pokemon_index as int;
    if active < player.team.len() {
        // On the bench the slot stands where it stood, or one place further
        // to the front if the active slot came before it.
        let at = if slot < active {
            slot
        } else {
            slot - 1
        };
        assert(swapped.bench() =~= player.bench().update(at, Some(other)));
        assert(player.bench()[at] == player.team[slot]);
        lemma_filter_update(player.bench(), pred, at, Some(other));
    } else {
        lemma_filter_update(player.team, pred, slot, Some(other));
    }
}

/// The count of the other side's Pokémon leaves the active one out: it is
/// the number of all Pokémon of the roster that stand, less the active one
/// if that stands, and never more than the roster has slots.
pub proof fn lemma_count_is_of_the_bench(player: PlayerModel)
    ensures
        bench_standing(player) + (if standing(player.active_pokemon()) {
            1nat
        } else {
            0nat
        }) == player.team.filter(|s: Option<PokemonModel>| standing(s)).len(),
        bench_standing(player) <= player.team.len(),
        player.active_pokemon_index < player.team.len() ==> bench_standing(player)
            < player.team.len(),
{
    let pred = |s: Option<PokemonModel>| standing(s);
    player.team.lemma_filter_len(pred);
    player.bench().lemma_filter_len(pred);
    if player.active_pokemon_index < player.team.len() {
        lemma_standing_without(player.team, player.active_pokemon_index as int);
    }
}

/// Replacing an element of a sequence by one that a predicate judges alike
/// keeps the number of elements that the predicate holds of.
proof fn lemma_filter_update<A>(s: Seq<A>, pred: spec_fn(A) -> bool, k: int, x: A)
    requires
        0 <= k < s.len(),
        pred(x) == pred(s[k]),
    ensures
        s.update(k, x).filter(pred).len() == s.filter(pred).len(),
    decreases s.len(),
{
    reveal(Seq::filter);
    let t = s.update(k, x);
    if k == s.len() - 1 {
        assert(t.drop_last() =~= s.drop_last());
    } else {
        assert(t.drop_last() =~= s.drop_last().update(k, x));
        lemma_filter_update(s.drop_last(), pred, k, x);
    }
}

/// A side can act exactly when its phase admits some action of it.
///
/// What a view says of `can_act` agrees with the rule by which submissions
/// are admitted: it is true exactly when a switch from that side would be
/// admitted, and where it is false no action at all is.
pub proof fn lemma_can_act_agrees(state: BattleModel, side: int, team_index: usize)
    requires
        state.well_formed(),
        side == 0 || side == 1,
    ensures
        player_view_of(state, side).can_act == can_act(state, side),
        can_act(state, side) <==> action_context_verdict(
            state,
            side,
            PlayerAction::SwitchPokemon { team_index },
        ) is Ok,
        can_act(state, side) <==> exists|action: PlayerAction|
            action_context_verdict(state, side, action) is Ok,
{
    let switch = PlayerAction::SwitchPokemon { team_index };
    if can_act(state, side) {
        assert(action_context_verdict(state, side, switch) is Ok);
    } else {
        assert forall|action: PlayerAction| action_context_verdict(state, side, action) is Err by {
            match state.game_state {
                GameState::WaitingForActions => {},
                GameState::WaitingForPlayer1Replacement => {},
                GameState::WaitingForPlayer2Replacement => {},
                GameState::WaitingForBothReplacements => {},
                _ => {},
            }
        }
    }
}

/// The driver asks for a resolution at most [`MAX_ITERATIONS`] times.
///
/// A resolution is asked for only while fewer than the ceiling have been
/// recorded, each recorded resolution counts, and at the ceiling the driver
/// either is finished or fails.
pub proof fn lemma_resolutions_are_bounded(state: BattleModel, iterations: u32, engine_ready: bool)
    ensures
        tick_step(state, iterations, engine_ready) == TickStep::Resolve ==> iterations
            < MAX_ITERATIONS,
        iterations >= MAX_ITERATIONS ==> tick_step(state, iterations, engine_ready)
            != TickStep::Resolve,
        tick_step(state, iterations, engine_ready) == TickStep::Exceeded ==> ready_for_resolution(
            state,
            engine_ready,
        ) && !state.game_state.is_terminal(),
{
}

/// The events of a run come out in the order in which they were produced:
/// those of a further resolution follow all earlier ones, and none of them
/// is empty.
pub proof fn lemma_events_keep_their_order(
    turns: Seq<ResolvedTurnModel>,
    turn_number: u32,
    formatted: Seq<Seq<char>>,
)
    ensures
        all_events(
            turns.push(ResolvedTurnModel { turn_number, events: kept_events(formatted) }),
        ) == all_events(turns) + kept_events(formatted),
        forall|i: int|
            0 <= i < kept_events(formatted).len() ==> (#[trigger] kept_events(formatted)[i]).len()
                > 0,
        kept_events(formatted).len() <= formatted.len(),
{
    let turn = ResolvedTurnModel { turn_number, events: kept_events(formatted) };
    assert(turns.push(turn).drop_last() =~= turns);
    let nonempty = |text: Seq<char>| text.len() > 0;
    formatted.lemma_filter_len(nonempty);
    assert forall|i: int| 0 <= i < kept_events(formatted).len() implies (#[trigger] kept_events(
        formatted,
    )[i]).len() > 0 by {
        formatted.lemma_filter_pred(nonempty, i);
    }
}

/// The kept events of the first `n` answers of a script, in order.
pub open spec fn script_events(script: Seq<Resolution>, n: nat) -> Seq<Seq<char>>
    decreases n,
{
    if n == 0 || script.len() == 0 {
        Seq::empty()
    } else {
        kept_events(script[0].formatted) + script_events(script.drop_first(), (n - 1) as nat)
    }
}

/// What a whole run of the driver comes to, whatever the engine answers.
///
/// From a fresh driver, a run takes at most [`MAX_ITERATIONS`] resolutions.
/// Its events are the kept events of the resolutions that it took, in the
/// order of the resolutions, after those that the driver held before. It
/// stops at the first resolution that ends the battle. And where it ends
/// finished, the battle is over or is not ready for a further resolution.
pub proof fn lemma_run(driver: DriverModel, engine_ready: bool, script: Seq<Resolution>)
    requires
        driver.iterations <= MAX_ITERATIONS,
    ensures
        ({
            let (end, step) = run(driver, engine_ready, script);
            let taken = resolutions_taken(driver, engine_ready, script);
            &&& taken <= script.len()
            &&& end.iterations == driver.iterations + taken
            &&& end.iterations <= MAX_ITERATIONS
            &&& end.turns.len() == driver.turns.len() + taken
            &&& all_events(end.turns) == all_events(driver.turns) + script_events(script, taken)
            &&& taken == 0 ==> end == driver
            &&& taken > 0 ==> end.state == script[taken - 1].state_after
            &&& forall|k: int|
                0 <= k < taken - 1 ==> !(#[trigger] script[k]).state_after.game_state.is_terminal()
            &&& step == tick_step(end.state, end.iterations, if taken == 0 {
                engine_ready
            } else {
                script[taken - 1].ready_after
            })
            &&& step == TickStep::Resolve ==> taken == script.len()
        }),
    decreases script.len(),
{
    let step = tick_step(driver.state, driver.iterations, engine_ready);
    if step == TickStep::Resolve && script.len() > 0 {
        let next = recorded(driver, script[0].state_after, script[0].formatted);
        let rest = script.drop_first();
        lemma_run(next, script[0].ready_after, rest);
        let taken = resolutions_taken(next, script[0].ready_after, rest);
        let (end, _) = run(next, script[0].ready_after, rest);
        lemma_events_keep_their_order(driver.turns, driver.state.turn_number, script[0].formatted);
        assert(all_events(driver.turns) + kept_events(script[0].formatted) + script_events(
            rest,
            taken,
        ) =~= all_events(driver.turns) + script_events(script, taken + 1));
        if taken > 0 {
            assert(rest[taken - 1] == script[taken as int]);
        }
        assert forall|k: int| 0 <= k < taken implies !(
        #[trigger] script[k]).state_after.game_state.is_terminal() by {
            if k == 0 {
                // A further resolution was taken after the first, so the
                // first did not end the battle.
                assert(tick_step(next.state, next.iterations, script[0].ready_after)
                    == TickStep::Resolve);
            } else {
                assert(script[k] == rest[k - 1]);
            }
        }
    } else {
        assert(script_events(script, 0) =~= Seq::<Seq<char>>::empty());
        assert(all_events(driver.turns) + Seq::<Seq<char>>::empty() =~= all_events(driver.turns));
    }
}

/// What a query is answered with depends on the record of its battle and
/// on the request, and on nothing else.
///
/// So the same request is answered alike as long as that record is not
/// rewritten, however often it is made, and whatever happens to the
/// records of other battles in between.
pub proof fn lemma_answers_are_repeatable(
    records: Map<u128, StoredModel>,
    later_records: Map<u128, StoredModel>,
    battle_id: u128,
    player_id: Seq<char>,
    last_turns: Option<u32>,
)
    requires
        records.contains_key(battle_id) == later_records.contains_key(battle_id),
        records.contains_key(battle_id) ==> records[battle_id] == later_records[battle_id],
    ensures
        events_answer(records, battle_id, player_id, last_turns) == events_answer(
            later_records,
            battle_id,
            player_id,
            last_turns,
        ),
        state_answer(records, battle_id, player_id) == state_answer(
            later_records,
            battle_id,
            player_id,
        ),
{
}

/// A processed submission changes the battle, the log and the time of the
/// last update of a record, and nothing else.
///
/// The identifier, the two participants and the time of creation stay. The
/// time of the last update never goes back, and is never earlier than the
/// time of creation if it was not before. The log keeps its order and
/// loses no event; and where the resolutions are of later and later turns,
/// each with events, it gains one entry for each of them after the entries
/// that it had.
pub proof fn lemma_update_keeps_identity(
    stored: StoredModel,
    battle_state: BattleModel,
    turns: Seq<ResolvedTurnModel>,
    now: i64,
)
    ensures
        ({
            let written = updated_record(stored, battle_state, turns, now);
            &&& written.battle_id == stored.battle_id
            &&& written.player1_id == stored.player1_id
            &&& written.player2_id == stored.player2_id
            &&& written.created_at == stored.created_at
            &&& written.version == stored.version
            &&& written.battle_state == battle_state
            &&& written.last_updated >= stored.last_updated
            &&& written.last_updated >= now
            &&& stored.created_at <= stored.last_updated ==> written.created_at
                <= written.last_updated
            &&& turn_numbers_increasing(stored.turn_logs) ==> turn_numbers_increasing(
                written.turn_logs,
            )
            &&& log_events(written.turn_logs) == log_events(stored.turn_logs) + all_events(turns)
            &&& turns_advance(stored.turn_logs, turns) ==> written.turn_logs
                == stored.turn_logs + Seq::new(turns.len(), |i: int| entry_of(turns[i], now))
        }),
{
    lemma_appends_only(stored.turn_logs, turns, now);
    if turn_numbers_increasing(stored.turn_logs) {
        lemma_appends_keep_order(stored.turn_logs, turns, now);
    }
    if turns_advance(stored.turn_logs, turns) {
        lemma_later_turns_gain_entries(stored.turn_logs, turns, now);
    }
}

/// A faint and the automated replacement that follows it are logged in one
/// entry, the faint first.
///
/// Both sides have an action in their slots. The engine resolves the turn,
/// in which a Pokémon of the second side faints: it leaves that side owing
/// a replacement, keeps the number of the turn, and reports the battle
/// ready again, the automated side's replacement being in its slot. It
/// then resolves the replacement, after which both sides owe an action.
/// Then the processing ends with both sides owing an action, after these
/// two resolutions and no more; the events come out with those of the
/// faint before those of the replacement; and, written to a log whose
/// entries are of earlier turns, they are one new entry of that turn,
/// which is the entry that a request for the last turn is answered with.
///
/// This holds of an engine that keeps the number of the turn until the
/// replacement is made. Where an engine counts the turn up with the faint,
/// the two resolutions are of two turns and are logged in two entries.
pub proof fn lemma_faint_and_replacement_share_an_entry(
    start: BattleModel,
    npc_actions: Seq<(usize, PlayerAction)>,
    faint: Resolution,
    replacement: Resolution,
    logs: Seq<TurnLogModel>,
    now: i64,
)
    requires
        start.well_formed(),
        sides_exist(npc_actions),
        start.game_state is WaitingForActions,
        queue_with(start.action_queue, npc_actions)[0] is Some,
        queue_with(start.action_queue, npc_actions)[1] is Some,
        logs.len() > 0 ==> logs.last().turn_number < start.turn_number,
        faint.state_after.game_state is WaitingForPlayer2Replacement,
        faint.state_after.turn_number == start.turn_number,
        faint.ready_after,
        kept_events(faint.formatted).len() > 0,
        replacement.state_after.game_state is WaitingForActions,
        replacement.state_after.action_queue[0] is None,
        kept_events(replacement.formatted).len() > 0,
    ensures
        ({
            let answers = EngineAnswers {
                npc_actions,
                engine_ready: true,
                script: seq![faint, replacement],
            };
            let events = kept_events(faint.formatted) + kept_events(replacement.formatted);
            let entry = TurnLogModel {
                turn_number: start.turn_number,
                events,
                timestamp: now,
            };
            &&& ticks_result(start, answers) matches Some(Ok((state, turns)))
            &&& state == replacement.state_after
            &&& state.game_state is WaitingForActions
            &&& all_events(turns) == events
            &&& log_with_turns(logs, turns, now) == logs.push(entry)
            &&& recent_logs(log_with_turns(logs, turns, now), Some(1u32)) == seq![entry]
        }),
{
    let filled = BattleModel {
        action_queue: queue_with(start.action_queue, npc_actions),
        ..start
    };
    let script = seq![faint, replacement];
    let first = fresh(filled);
    let second = recorded(first, faint.state_after, faint.formatted);
    let third = recorded(second, replacement.state_after, replacement.formatted);
    let rest = script.drop_first();
    assert(rest =~= seq![replacement]);
    assert(rest.drop_first() =~= Seq::<Resolution>::empty());
    assert(tick_step(first.state, first.iterations, true) == TickStep::Resolve);
    assert(tick_step(second.state, second.iterations, faint.ready_after) == TickStep::Resolve);
    assert(tick_step(third.state, third.iterations, replacement.ready_after)
        == TickStep::Finished);
    assert(run(third, replacement.ready_after, rest.drop_first()) == (third, TickStep::Finished));
    assert(run(second, faint.ready_after, rest) == (third, TickStep::Finished));
    assert(run(first, true, script) == (third, TickStep::Finished));
    assert(resolutions_taken(third, replacement.ready_after, rest.drop_first()) == 0);
    assert(resolutions_taken(second, faint.ready_after, rest) == 1);
    assert(resolutions_taken(first, true, script) == 2);

    let turns = third.turns;
    let of_faint = ResolvedTurnModel {
        turn_number: start.turn_number,
        events: kept_events(faint.formatted),
    };
    let of_replacement = ResolvedTurnModel {
        turn_number: start.turn_number,
        events: kept_events(replacement.formatted),
    };
    assert(turns =~= seq![of_faint, of_replacement]);
    lemma_events_keep_their_order(first.turns, start.turn_number, faint.formatted);
    lemma_events_keep_their_order(second.turns, start.turn_number, replacement.formatted);
    assert(all_events(first.turns) =~= Seq::<Seq<char>>::empty());
    assert(all_events(turns) =~= kept_events(faint.formatted) + kept_events(
        replacement.formatted,
    ));

    let events = kept_events(faint.formatted) + kept_events(replacement.formatted);
    let opened = logs.push(
        TurnLogModel {
            turn_number: start.turn_number,
            events: kept_events(faint.formatted),
            timestamp: now,
        },
    );
    let entry = TurnLogModel { turn_number: start.turn_number, events, timestamp: now };
    assert(turns.drop_last() =~= seq![of_faint]);
    assert(turns.drop_last().drop_last() =~= Seq::<ResolvedTurnModel>::empty());
    assert(log_with_turns(logs, turns.drop_last().drop_last(), now) == logs);
    assert(log_with_turns(logs, turns.drop_last(), now) == opened);
    assert(log_with_turn(opened, of_replacement, now) =~= logs.push(entry));
    assert(log_with_turns(logs, turns, now) == logs.push(entry));
    assert(recent_logs(logs.push(entry), Some(1u32)) =~= seq![entry]);
}

/// The service stores a lone submission and waits for the other side.
///
/// A battle is stored in which both sides owe an action and neither has
/// submitted, and it is played by two players: the engine decides for no
/// side. A request to submit from one of the sides is then answered in one
/// of three ways. Where the engine takes the action and the store takes
/// the write, the record is rewritten with the action in that side's slot
/// and with nothing else of the battle changed: the phase, the turn number
/// and the other slot are as they were, and the turn log has gained no
/// entry. Where the engine refuses the action, the answer is that it is
/// invalid. Otherwise the answer is an error of the store. Where the
/// answer is an error, the store is as it was.
pub proof fn lemma_service_stores_lone_submission<E: ResolutionEngine, D: Db>(
    engine: &E,
    db: &D,
    after: Map<u128, StoredModel>,
    request: SubmitActionRequest,
    now: i64,
    answer: Result<SubmitActionResponse, ApiError>,
    side: usize,
)
    requires
        submission_answered(engine, db, after, request, now, answer),
        db.records().contains_key(request.battle_id.0),
        db.records()[request.battle_id.0].battle_state.well_formed(),
        db.records()[request.battle_id.0].battle_state.game_state is WaitingForActions,
        db.records()[request.battle_id.0].battle_state.action_queue[0] is None,
        db.records()[request.battle_id.0].battle_state.action_queue[1] is None,
        player_index(db.records()[request.battle_id.0].battle_state, request.player_id@) == Some(
            side,
        ),
        forall|state: BattleState, decided: Vec<(usize, PlayerAction)>| #[trigger]
            call_ensures(E::collect_npc_actions, (engine, &state), decided) ==> decided@.len()
                == 0,
    ensures
        match answer {
            Ok(_) => {
                let stored = db.records()[request.battle_id.0];
                let written = StoredModel {
                    battle_state: with_action(stored.battle_state, side as int, request.action),
                    last_updated: later(stored.last_updated, now),
                    version: (stored.version + 1) as u64,
                    ..stored
                };
                &&& after == db.records().insert(request.battle_id.0, written)
                &&& written.battle_state.action_queue[side as int] == Some(request.action)
                &&& written.battle_state.action_queue[1 - side] is None
                &&& written.battle_state.game_state == stored.battle_state.game_state
                &&& written.battle_state.turn_number == stored.battle_state.turn_number
                &&& written.turn_logs == stored.turn_logs
            },
            Err(e) => after == db.records() && (e@ is InvalidAction || e@.from_the_store()),
        },
{
    let id = request.battle_id.0;
    let stored = db.records()[id];
    let start = stored.battle_state;
    let player_id = request.player_id@;
    let action = request.action;
    let placed = with_action(start, side as int, action);
    lemma_lone_submission_waits(start, player_id, side, action, true, 0);
    assert(service_rejection(db.records(), id, player_id, action) is None);
    assert forall|state: BattleState, trace: SubmissionTrace|
        state@ == start && submission_asked(
            engine,
            state,
            player_id,
            action,
            trace,
        ) implies match submission_result(
        start,
        player_id,
        action,
        verdict_model(trace.verdict),
        trace.asked.answers(),
    ) {
        Some(Ok(outcome)) => outcome == (placed, Seq::<ResolvedTurnModel>::empty()),
        Some(Err(e)) => e is InvalidAction,
        None => true,
    } by {
        reveal(submission_asked);
        if trace.verdict is Ok {
            reveal(asked_of);
            let answers = trace.asked.answers();
            assert(answers.npc_actions.len() == 0);
            assert(sides_exist(answers.npc_actions));
            assert(queue_with(placed.action_queue, answers.npc_actions) == placed.action_queue);
            assert(tick_step(placed, 0, answers.engine_ready) == TickStep::Finished);
        }
    }
    match answer {
        Ok(_) => {
            let (state, trace, turns) = choose|
                state: BattleState,
                trace: SubmissionTrace,
                turns: Seq<ResolvedTurnModel>,
            | #[trigger]
                explains_record(
                    engine,
                    stored,
                    player_id,
                    action,
                    now,
                    state,
                    trace,
                    turns,
                    after[id],
                );
            assert(turns == Seq::<ResolvedTurnModel>::empty());
            assert(after[id].battle_state == placed);
            assert(after[id].turn_logs == stored.turn_logs);
        },
        Err(e) => {
            if !read_error(db, request.battle_id, e@) {
                let (state, trace) = choose|state: BattleState, trace: SubmissionTrace| #[trigger]
                    explains_error(engine, stored, player_id, action, state, trace, e@);
                assert(state@ == start && submission_asked(
                    engine,
                    state,
                    player_id,
                    action,
                    trace,
                ));
            }
        },
    }
}

/// The service takes no submission for a battle that has ended, and leaves
/// its record as it is.
///
/// A battle is stored in a terminal phase. A request to submit from either
/// of its sides is answered with an error, whatever the action: with the
/// error that names the phase or, where the store fails the read, with the
/// database error of that read. Nothing is written: every record is as it
/// was, and so the turn number, the turn log and the time of the last
/// update of the battle are.
pub proof fn lemma_service_keeps_ended_battle<E: ResolutionEngine, D: Db>(
    engine: &E,
    db: &D,
    after: Map<u128, StoredModel>,
    request: SubmitActionRequest,
    now: i64,
    answer: Result<SubmitActionResponse, ApiError>,
)
    requires
        submission_answered(engine, db, after, request, now, answer),
        db.records().contains_key(request.battle_id.0),
        db.records()[request.battle_id.0].battle_state.game_state.is_terminal(),
        player_index(db.records()[request.battle_id.0].battle_state, request.player_id@) is Some,
    ensures
        after == db.records(),
        answer matches Err(e) && (e@ == (ErrorModel::InvalidBattleState {
            state: db.records()[request.battle_id.0].battle_state.game_state.name_spec(),
        }) || read_error(db, request.battle_id, e@)),
{
    lemma_service_rejects_ended_battle(
        db.records(),
        request.battle_id.0,
        request.player_id@,
        request.action,
    );
}

/// A request for the events of a battle is answered alike every time.
///
/// A request was answered with the events of a battle. The same request is
/// made again, of a store in which the record of that battle has not been
/// rewritten meanwhile. Then it is answered with the same entries, in the
/// same order, the same turn number and the same identifier; or the store
/// fails the read, and the answer is the database error of that read.
pub proof fn lemma_events_are_answered_alike<D: Db>(
    db: &D,
    later_db: &D,
    request: GetBattleEventsRequest,
    again: GetBattleEventsRequest,
    first: Result<GetBattleEventsResponse, ApiError>,
    second: Result<GetBattleEventsResponse, ApiError>,
)
    requires
        events_answered(db, request, first),
        events_answered(later_db, again, second),
        first is Ok,
        again.battle_id == request.battle_id,
        again.player_id@ == request.player_id@,
        again.last_turns == request.last_turns,
        later_db.records().contains_key(request.battle_id.0),
        later_db.records()[request.battle_id.0] == db.records()[request.battle_id.0],
    ensures
        match second {
            Ok(response) => {
                &&& response.battle_id == first->Ok_0.battle_id
                &&& response.turn_logs.deep_view() == first->Ok_0.turn_logs.deep_view()
                &&& response.total_turns == first->Ok_0.total_turns
            },
            Err(e) => read_error(later_db, request.battle_id, e@),
        },
{
}

} // verus!
