//! What the operations of the service come to: how the store stands
//! afterwards, and what is answered, as functions of what the store held
//! and of what the engine said.

use crate::battle::{BattleModel, BattleState, PlayerAction};
use crate::engine::{
    average_defined, build_asked, creation_result, mvp_asked, mvp_creation_result,
    player_index, player_view_of, player_view_or_error, rejection, submission_asked,
    submission_result, team_info_of, verdict_model, BuildTrace, MvpTrace, PlayerViewModel,
    PrefabTeam, SubmissionTrace, MVP_OPPONENT_ID, MVP_PLAYER_ID,
};
use crate::database::Db;
use crate::errors::{ApiError, ErrorModel};
use crate::ids::{hyphenated, is_random_uuid, BattleId};
use crate::resolution::{BattleBuilder, ResolutionEngine};
use crate::ticks::ResolvedTurnModel;
use crate::turn_log::{
    last_number, log_with_turns, recent_logs, turn_numbers_increasing, turns_follow,
};
use crate::types::{
    CreateBattleRequest, CreateBattleResponse, CreateMvpBattleRequest, CreateMvpBattleResponse,
    GetBattleEventsRequest, GetBattleEventsResponse, PrefabTeamModel, StoredBattle, StoredModel,
    SubmitActionRequest, SubmitActionResponse, TurnLogModel,
};
use vstd::prelude::*;

verus! {

/// The record of a battle that has just been created: no turn has been
/// logged, and the record was last updated when it was made.
pub open spec fn new_record(
    battle_id: u128,
    player1_id: Seq<char>,
    player2_id: Seq<char>,
    battle_state: BattleModel,
    now: i64,
) -> StoredModel {
    StoredModel {
        battle_id,
        player1_id,
        player2_id,
        battle_state,
        turn_logs: Seq::empty(),
        created_at: now,
        last_updated: now,
        version: 0,
    }
}

/// In every record of the store the turn numbers of the log increase
/// strictly.
pub open spec fn logs_in_order(records: Map<u128, StoredModel>) -> bool {
    forall|id: u128| #[trigger]
        records.contains_key(id) ==> turn_numbers_increasing(records[id].turn_logs)
}

/// What the creation of a battle comes to: how the store stands afterwards,
/// and what is answered.
///
/// Where `viewer` plays neither side of the battle, the answer is the
/// authorization error, and nothing is stored. An identifier that is taken
/// makes the creation fail, and only then the answer is a store conflict.
/// Where the store does not take the record, the answer is a store conflict
/// or a database error and the store is as it was. Where the store takes
/// the record, the answer is the battle as `viewer` sees it. The turn
/// numbers of the logs stay in order.
pub open spec fn creation_outcome(
    before: Map<u128, StoredModel>,
    after: Map<u128, StoredModel>,
    record: StoredModel,
    viewer: Seq<char>,
    answer: Result<PlayerViewModel, ErrorModel>,
) -> bool {
    &&& before.contains_key(record.battle_id) ==> answer is Err
    &&& match player_view_or_error(record.battle_state, viewer) {
        Err(e) => after == before && answer == Err::<PlayerViewModel, ErrorModel>(e),
        Ok(view) => match answer {
            Ok(shown) => shown == view && after == before.insert(record.battle_id, record),
            Err(e) => after == before && (e is DatabaseError || (e is StoreConflict
                && before.contains_key(record.battle_id))),
        },
    }
    &&& logs_in_order(before) ==> logs_in_order(after)
}

/// The error that ends a request to submit before the engine is asked
/// anything: that of a battle that is not stored, of a participant who
/// plays neither side, or of the phase.
pub open spec fn service_rejection(
    records: Map<u128, StoredModel>,
    battle_id: u128,
    player_id: Seq<char>,
    action: PlayerAction,
) -> Option<ErrorModel> {
    if !records.contains_key(battle_id) {
        Some(ErrorModel::BattleNotFound { battle_id })
    } else {
        rejection(records[battle_id].battle_state, player_id, action)
    }
}

/// Whether what the engine was asked and answered explains how a record
/// was rewritten by a submission: the engine was asked about the stored
/// battle, the battle of the rewritten record is what the submission came
/// to under its answers, and the events of the resolutions, whose turn
/// numbers have not gone back, have been filed in the log.
pub open spec fn explains_record<E: ResolutionEngine>(
    engine: &E,
    before: StoredModel,
    player_id: Seq<char>,
    action: PlayerAction,
    now: i64,
    state: BattleState,
    trace: SubmissionTrace,
    turns: Seq<ResolvedTurnModel>,
    after: StoredModel,
) -> bool {
    &&& state@ == before.battle_state
    &&& submission_asked(engine, state, player_id, action, trace)
    &&& submission_result(
        before.battle_state,
        player_id,
        action,
        verdict_model(trace.verdict),
        trace.asked.answers(),
    ) == Some(
        Ok::<(BattleModel, Seq<ResolvedTurnModel>), ErrorModel>((after.battle_state, turns)),
    )
    &&& turns_follow(last_number(before.turn_logs), turns)
    &&& after.turn_logs == log_with_turns(before.turn_logs, turns, now)
}

/// How the store stands after a submission has been processed and stored:
/// the record of the battle has been rewritten under the next version, by
/// what the submission came to under the answers of the engine. The
/// identifier, the participants and the time of creation of the record are
/// as they were, and so is every other record.
pub open spec fn submission_stored<E: ResolutionEngine>(
    engine: &E,
    before: Map<u128, StoredModel>,
    after: Map<u128, StoredModel>,
    battle_id: u128,
    player_id: Seq<char>,
    action: PlayerAction,
    now: i64,
) -> bool {
    &&& before.contains_key(battle_id)
    &&& after == before.insert(
        battle_id,
        StoredModel {
            battle_state: after[battle_id].battle_state,
            turn_logs: after[battle_id].turn_logs,
            last_updated: later(before[battle_id].last_updated, now),
            version: (before[battle_id].version + 1) as u64,
            ..before[battle_id]
        },
    )
    &&& exists|state: BattleState, trace: SubmissionTrace, turns: Seq<ResolvedTurnModel>|
     #[trigger]
        explains_record(
            engine,
            before[battle_id],
            player_id,
            action,
            now,
            state,
            trace,
            turns,
            after[battle_id],
        )
}

/// Whether `actions` is what `engine` lists as the legal actions of side
/// `player_index` of the battle `state`.
pub open spec fn lists_actions<E: ResolutionEngine>(
    engine: &E,
    state: BattleState,
    player_index: usize,
    actions: Vec<PlayerAction>,
) -> bool {
    call_ensures(E::get_valid_actions, (engine, &state, player_index), actions)
}

/// Whether `teams` is what `builder` offers as ready-made teams.
pub open spec fn offers_teams<B: BattleBuilder>(builder: &B, teams: Vec<PrefabTeam>) -> bool {
    call_ensures(B::prefab_teams, (builder,), teams)
}

/// The listing of the ready-made teams, or the internal error for a team
/// whose average level cannot be computed.
pub open spec fn teams_answer(teams: Seq<PrefabTeam>) -> Result<Seq<PrefabTeamModel>, ErrorModel> {
    if forall|k: int| 0 <= k < teams.len() ==> average_defined(#[trigger] teams[k].levels@) {
        Ok(Seq::new(teams.len(), |k: int| team_info_of(teams[k])))
    } else {
        Err(ErrorModel::InternalError { message: "Ready-made team without an average level"@ })
    }
}

/// What the creation of a battle from two rosters comes to: what the
/// builder was asked and answered, how the store stands afterwards, and
/// what is answered.
///
/// The battle gets a fresh random identifier. Where a roster fails its
/// check, the answer is the validation error and the store is as it was.
/// Otherwise the battle that the builder built is stored
/// ([`creation_outcome`]), for the first side to see.
pub open spec fn battle_created<B: BattleBuilder>(
    builder: &B,
    before: Map<u128, StoredModel>,
    after: Map<u128, StoredModel>,
    request: CreateBattleRequest,
    now: i64,
    battle_id: u128,
    trace: BuildTrace,
    answer: Result<PlayerViewModel, ErrorModel>,
) -> bool {
    &&& is_random_uuid(battle_id)
    &&& build_asked(
        builder,
        hyphenated(battle_id),
        request.player1_id@,
        &request.player1_team,
        request.player2_id@,
        &request.player2_team,
        trace,
    )
    &&& match creation_result(
        hyphenated(battle_id),
        request.player1_id@,
        request.player1_team@,
        request.player2_id@,
        request.player2_team@,
        trace,
    ) {
        Err(e) => after == before && answer == Err::<PlayerViewModel, ErrorModel>(e),
        Ok(built) => creation_outcome(
            before,
            after,
            new_record(battle_id, request.player1_id@, request.player2_id@, built@, now),
            request.player1_id@,
            answer,
        ),
    }
}

/// The texts by which a builder is asked for a battle against an automated
/// opponent.
pub struct MvpQuestion<'a> {
    pub battle_id: String,
    pub player_name: String,
    pub team_id: &'a str,
    pub opponent_id: &'a str,
}

/// What the creation of a battle against an automated opponent comes to:
/// what the builder was asked and answered, how the store stands
/// afterwards, and what is answered.
///
/// The battle gets a fresh random identifier, by whose hyphenated form the
/// builder is asked. Where the builder does not build the battle, the
/// answer is the validation error and the store is as it was. Otherwise the
/// battle is stored for `player_1` and `npc` ([`creation_outcome`]), for
/// `player_1` to see.
pub open spec fn mvp_battle_created<B: BattleBuilder>(
    builder: &B,
    before: Map<u128, StoredModel>,
    after: Map<u128, StoredModel>,
    request: CreateMvpBattleRequest,
    now: i64,
    battle_id: u128,
    asked: MvpQuestion,
    trace: MvpTrace,
    answer: Result<PlayerViewModel, ErrorModel>,
) -> bool {
    &&& is_random_uuid(battle_id)
    &&& asked.battle_id@ == hyphenated(battle_id)
    &&& asked.player_name@ == request.player_name@
    &&& asked.team_id@ == request.team_id@
    &&& asked.opponent_id@ == request.opponent_id@
    &&& mvp_asked(
        builder,
        asked.battle_id,
        asked.player_name,
        asked.team_id,
        asked.opponent_id,
        trace,
    )
    &&& match mvp_creation_result(request.opponent_id@, trace) {
        Err(e) => after == before && answer == Err::<PlayerViewModel, ErrorModel>(e),
        Ok(built) => creation_outcome(
            before,
            after,
            new_record(battle_id, MVP_PLAYER_ID@, MVP_OPPONENT_ID@, built@, now),
            MVP_PLAYER_ID@,
            answer,
        ),
    }
}

/// What is answered to the creation of a battle, taken by its views: the
/// battle as it is shown, or the error.
pub open spec fn created_view(r: Result<CreateBattleResponse, ApiError>) -> Result<
    PlayerViewModel,
    ErrorModel,
> {
    match r {
        Ok(response) => Ok(response.battle_state@),
        Err(e) => Err(e@),
    }
}

/// What is answered to the creation of a battle against an automated
/// opponent, taken by its views: the battle as it is shown, or the error.
pub open spec fn mvp_created_view(r: Result<CreateMvpBattleResponse, ApiError>) -> Result<
    PlayerViewModel,
    ErrorModel,
> {
    match r {
        Ok(response) => Ok(response.battle_state@),
        Err(e) => Err(e@),
    }
}

/// Whether the store failed to read the record of a battle, with the given
/// message.
pub open spec fn read_failed<D: Db>(db: &D, battle_id: BattleId, message: Seq<char>) -> bool {
    exists|text: String| #[trigger]
        call_ensures(
            D::get_battle,
            (db, battle_id),
            Err::<Option<StoredBattle>, String>(text),
        ) && text@ == message
}

/// Whether an error is the database error of a read that the store failed,
/// with the store's message.
pub open spec fn read_error<D: Db>(db: &D, battle_id: BattleId, error: ErrorModel) -> bool {
    error matches ErrorModel::DatabaseError { message } && read_failed(db, battle_id, message)
}

/// The error for resolutions whose turn number lies before that of the
/// last logged turn: the engine's count of turns has gone back.
pub open spec fn turn_went_back() -> ErrorModel {
    ErrorModel::InternalError { message: "Turn number went back"@ }
}

/// Whether what the engine was asked and answered explains the error of a
/// submission to a stored battle: under its answers the submission comes
/// to that error; or it comes to a battle whose turn numbers have gone
/// back, which is an internal error; or it comes to a battle, and the
/// error is that of the write which the store then did not take: a store
/// conflict or a database error.
pub open spec fn explains_error<E: ResolutionEngine>(
    engine: &E,
    stored: StoredModel,
    player_id: Seq<char>,
    action: PlayerAction,
    state: BattleState,
    trace: SubmissionTrace,
    error: ErrorModel,
) -> bool {
    &&& state@ == stored.battle_state
    &&& submission_asked(engine, state, player_id, action, trace)
    &&& match submission_result(
        stored.battle_state,
        player_id,
        action,
        verdict_model(trace.verdict),
        trace.asked.answers(),
    ) {
        Some(Err(e)) => error == e,
        Some(Ok((_, turns))) => if turns_follow(last_number(stored.turn_logs), turns) {
            error is DatabaseError || error is StoreConflict
        } else {
            error == turn_went_back()
        },
        None => false,
    }
}

/// Where the error of a request to submit comes from. It is the database
/// error of a read that the store failed, with the store's message; or the
/// error that ends the request before the engine is asked
/// ([`service_rejection`]); or the error that the submission comes to under
/// the answers of the engine; or, where the submission came to a battle,
/// the error of the write.
pub open spec fn submission_failed<E: ResolutionEngine, D: Db>(
    engine: &E,
    db: &D,
    battle_id: BattleId,
    player_id: Seq<char>,
    action: PlayerAction,
    error: ErrorModel,
) -> bool {
    ||| read_error(db, battle_id, error)
    ||| service_rejection(db.records(), battle_id.0, player_id, action) == Some(error)
    ||| db.records().contains_key(battle_id.0) && exists|
        state: BattleState,
        trace: SubmissionTrace,
    | #[trigger]
        explains_error(
            engine,
            db.records()[battle_id.0],
            player_id,
            action,
            state,
            trace,
            error,
        )
}

/// What a request to submit is answered with by a service over the store
/// `db`, and how the store stands afterwards, with the records `after`.
///
/// The operation is all or nothing: where it fails, the store is as it
/// was. A submission that the phase does not admit fails with the error of
/// the phase, unless the store fails the read. Every error has its reason
/// ([`submission_failed`]), and a success stores what the submission came
/// to ([`submission_stored`]). The turn numbers of the logs stay in order.
pub open spec fn submission_answered<E: ResolutionEngine, D: Db>(
    engine: &E,
    db: &D,
    after: Map<u128, StoredModel>,
    request: SubmitActionRequest,
    now: i64,
    answer: Result<SubmitActionResponse, ApiError>,
) -> bool {
    &&& answer is Err ==> after == db.records()
    &&& service_rejection(db.records(), request.battle_id.0, request.player_id@, request.action)
        matches Some(e) ==> answer matches Err(err) && (err@ == e || read_error(
        db,
        request.battle_id,
        err@,
    ))
    &&& answer matches Err(err) ==> submission_failed(
        engine,
        db,
        request.battle_id,
        request.player_id@,
        request.action,
        err@,
    )
    &&& answer matches Ok(response) ==> {
        &&& response.success
        &&& response.battle_updated
        &&& response.message@ == "Action processed successfully"@
        &&& submission_stored(
            engine,
            db.records(),
            after,
            request.battle_id.0,
            request.player_id@,
            request.action,
            now,
        )
    }
    &&& logs_in_order(db.records()) ==> logs_in_order(after)
}

/// What a request for the events of a battle is answered with by a service
/// over the store `db`: the database error of a read that the store
/// failed, or else what the records of the store give ([`events_answer`]),
/// under the identifier of the request.
pub open spec fn events_answered<D: Db>(
    db: &D,
    request: GetBattleEventsRequest,
    answer: Result<GetBattleEventsResponse, ApiError>,
) -> bool {
    &&& answer matches Ok(response) ==> response.battle_id == request.battle_id
    &&& (answer matches Err(e) && read_error(db, request.battle_id, e@)) || match answer {
        Ok(response) => Ok((response.turn_logs.deep_view(), response.total_turns)),
        Err(e) => Err(e@),
    } == events_answer(
        db.records(),
        request.battle_id.0,
        request.player_id@,
        request.last_turns,
    )
}

/// The later of two times.
pub open spec fn later(a: i64, b: i64) -> i64 {
    if a >= b {
        a
    } else {
        b
    }
}

/// The record that is written after a submission has been processed: the
/// battle as the engine left it, the events of each resolution filed in the
/// turn log, and the time of the update, which never lies before that of
/// the update before. The version is the one that was read.
pub open spec fn updated_record(
    stored: StoredModel,
    battle_state: BattleModel,
    turns: Seq<ResolvedTurnModel>,
    now: i64,
) -> StoredModel {
    StoredModel {
        battle_state,
        turn_logs: log_with_turns(stored.turn_logs, turns, now),
        last_updated: later(stored.last_updated, now),
        ..stored
    }
}

/// What a request for the state of a battle is answered with, given the
/// records of the store: the view of the requesting side, or the error for
/// a battle that is not stored or a participant that plays neither side.
pub open spec fn state_answer(
    records: Map<u128, StoredModel>,
    battle_id: u128,
    player_id: Seq<char>,
) -> Result<PlayerViewModel, ErrorModel> {
    if !records.contains_key(battle_id) {
        Err(ErrorModel::BattleNotFound { battle_id })
    } else {
        match player_index(records[battle_id].battle_state, player_id) {
            Some(i) => Ok(player_view_of(records[battle_id].battle_state, i as int)),
            None => Err(ErrorModel::PlayerNotAuthorized { player_id }),
        }
    }
}

/// What a request for the events of a battle is answered with, given the
/// records of the store: the entries asked for and the battle's turn
/// number, or the error for a battle that is not stored or a participant
/// that plays neither side.
pub open spec fn events_answer(
    records: Map<u128, StoredModel>,
    battle_id: u128,
    player_id: Seq<char>,
    last_turns: Option<u32>,
) -> Result<(Seq<TurnLogModel>, u32), ErrorModel> {
    if !records.contains_key(battle_id) {
        Err(ErrorModel::BattleNotFound { battle_id })
    } else {
        match player_index(records[battle_id].battle_state, player_id) {
            Some(_) => Ok(
                (
                    recent_logs(records[battle_id].turn_logs, last_turns),
                    records[battle_id].battle_state.turn_number,
                ),
            ),
            None => Err(ErrorModel::PlayerNotAuthorized { player_id }),
        }
    }
}

} // verus!
