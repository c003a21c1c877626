//! The session service: the lifecycle operations of a session over a
//! session store and a resolution engine.
//!
//! Each operation of [`BattleHandler`] is one request from end to end.
//! Where the engine cannot be handed over, a creation or a submission can
//! be done in parts: the engine is run on the battle as [`crate::engine`]
//! and [`crate::ticks`] direct, between [`BattleHandler::load_battle`] and
//! [`BattleHandler::save_submission`], or before
//! [`BattleHandler::save_battle`].
//!
//! What each operation comes to is written down in [`answers`].

pub mod answers;
pub mod convert;

pub use answers::{
    battle_created, created_view, creation_outcome, events_answer, events_answered,
    explains_error, explains_record, later, lists_actions, logs_in_order, mvp_battle_created,
    mvp_created_view, new_record, offers_teams, read_error, read_failed, service_rejection,
    state_answer, submission_answered, submission_failed, submission_stored, teams_answer,
    turn_went_back, updated_record, MvpQuestion,
};
pub use convert::{
    battle_state_response, convert_move_view, convert_opponent_view, convert_pokemon_detail,
    convert_pokemon_summary, convert_team_view, valid_actions_response,
};

use crate::battle::BattleState;
use crate::database::{rewritten, update_admitted, write_error, Db, StoreError};
use crate::engine::{
    average_defined, average_is_defined, build_asked, built_view, create_battle,
    create_mvp_battle, creation_result, get_available_teams, get_battle_state_for_player,
    get_npc_opponents, get_player_valid_actions, mvp_asked, mvp_creation_result,
    npc_opponents, player_index, player_view_or_error, rejection, submission_asked,
    submission_result, submit_action, validate_player_authorization, verdict_model,
    BuildTrace, MvpTrace, PrefabTeam, SubmissionTrace, TeamModel, MVP_OPPONENT_ID,
    MVP_PLAYER_ID,
};
use crate::errors::{ApiError, ErrorModel};
use crate::ids::{BattleId, PlayerId};
use crate::resolution::{BattleBuilder, ResolutionEngine};
use crate::ticks::{ticks_view, ResolvedTurn};
use crate::turn_log::{
    append_turns, last_number, lemma_appends_keep_order, recent_turn_logs,
    turn_numbers_increasing, turns_follow, turns_follow_log,
};
use crate::types::{
    AvailableTeamsResponse, CreateBattleRequest, CreateBattleResponse, CreateMvpBattleRequest,
    CreateMvpBattleResponse, GetBattleEventsRequest, GetBattleEventsResponse,
    GetBattleStateRequest, GetBattleStateResponse, GetTeamInfoRequest, GetTeamInfoResponse,
    GetValidActionsRequest, GetValidActionsResponse, NpcOpponentsResponse, StoredBattle,
    SubmitActionRequest, SubmitActionResponse,
};
use vstd::prelude::*;

verus! {

/// The session service over a store `D`.
pub struct BattleHandler<D: Db> {
    pub db: D,
}

impl<D: Db> BattleHandler<D> {
    /// A service over the given store.
    pub fn new(db: D) -> (handler: Self)
        ensures
            handler.db == db,
    {
        BattleHandler { db }
    }

    /// The automated opponents on offer.
    pub fn get_npc_opponents(&self) -> (r: NpcOpponentsResponse)
        ensures
            r.opponents.deep_view() == npc_opponents(),
    {
        NpcOpponentsResponse { opponents: get_npc_opponents() }
    }

    /// Get available teams: the listing of each ready-made team that the
    /// engine offers, in order. A team whose average level cannot be
    /// computed is an internal error.
    pub fn get_available_teams<B: BattleBuilder>(&self, builder: &B) -> (r: Result<
        AvailableTeamsResponse,
        ApiError,
    >)
        ensures
            exists|teams: Vec<PrefabTeam>| #[trigger]
                offers_teams(builder, teams) && match r {
                    Ok(response) => Ok(response.teams.deep_view()),
                    Err(e) => Err(e@),
                } == teams_answer(teams@),
    {
        let teams = builder.prefab_teams();
        let ghost offered = teams;
        assert(offers_teams(builder, offered));
        let mut i: usize = 0;
        while i < teams.len()
            invariant
                i <= teams.len(),
                teams == offered,
                offers_teams(builder, offered),
                forall|k: int| 0 <= k < i ==> average_defined(#[trigger] teams[k].levels@),
            decreases teams.len() - i,
        {
            if !average_is_defined(&teams[i].levels) {
                let r = Err(
                    ApiError::InternalError {
                        message: String::from_str("Ready-made team without an average level"),
                    },
                );
                assert(!average_defined(teams@[i as int].levels@));
                assert(teams_answer(teams@) is Err);
                return r;
            }
            i += 1;
        }
        Ok(AvailableTeamsResponse { teams: get_available_teams(teams) })
    }

    /// Reads the record of a battle: the record that the store hands out,
    /// the error for a battle that it does not have, or, where the store
    /// fails, the database error with its message.
    pub fn load_battle(&self, battle_id: BattleId) -> (r: Result<StoredBattle, ApiError>)
        ensures
            match r {
                Ok(stored) => call_ensures(
                    D::get_battle,
                    (&self.db, battle_id),
                    Ok::<Option<StoredBattle>, String>(Some(stored)),
                ),
                Err(e) => read_error(&self.db, battle_id, e@) || call_ensures(
                    D::get_battle,
                    (&self.db, battle_id),
                    Ok::<Option<StoredBattle>, String>(None),
                ),
            },
            match r {
                Ok(stored) => stored.battle_id == battle_id && self.db.records().contains_key(
                    battle_id.0,
                ) && stored@ == self.db.records()[battle_id.0],
                Err(e) => read_error(&self.db, battle_id, e@) || (e@
                    == (ErrorModel::BattleNotFound { battle_id: battle_id.0 })
                    && !self.db.records().contains_key(battle_id.0)),
            },
    {
        match self.db.get_battle(battle_id) {
            Err(message) => Err(ApiError::DatabaseError { message }),
            Ok(None) => Err(ApiError::battle_not_found(battle_id)),
            Ok(Some(stored)) => Ok(stored),
        }
    }

    /// Stores a battle that the resolution engine has just built, under a
    /// new identifier, and hands out the battle as `viewer` sees it. A
    /// battle that `viewer` plays no side of is not stored. An identifier
    /// that is taken makes the operation fail, and a write that the store
    /// does not take leaves it as it was; the error is then the one that
    /// the store gave for the write of this record.
    pub fn save_battle(
        &mut self,
        battle_id: BattleId,
        player1_id: PlayerId,
        player2_id: PlayerId,
        battle_state: BattleState,
        viewer: &PlayerId,
        now: i64,
    ) -> (r: Result<GetBattleStateResponse, ApiError>)
        ensures
            creation_outcome(
                old(self).db.records(),
                final(self).db.records(),
                new_record(battle_id.0, player1_id@, player2_id@, battle_state@, now),
                viewer@,
                match r {
                    Ok(view) => Ok(view@),
                    Err(e) => Err(e@),
                },
            ),
            r matches Ok(view) ==> view.battle_id == battle_id,
            r matches Err(e) ==> player_view_or_error(battle_state@, viewer@) is Err || exists|
                m: &mut D,
                b: &StoredBattle,
                answer: StoreError,
            |
                *m == old(self).db && *final(m) == final(self).db && b@ == new_record(
                    battle_id.0,
                    player1_id@,
                    player2_id@,
                    battle_state@,
                    now,
                ) && e@ == write_error(answer@) && #[trigger] call_ensures(
                    D::create_battle,
                    (m, b),
                    Err::<(), StoreError>(answer),
                ),
    {
        let view = match get_battle_state_for_player(&battle_state, viewer) {
            Ok(view) => view,
            Err(e) => { return Err(e); },
        };
        let stored_battle = StoredBattle {
            battle_id,
            player1_id,
            player2_id,
            battle_state,
            turn_logs: Vec::new(),
            created_at: now,
            last_updated: now,
            version: 0,
        };
        assert(stored_battle@.turn_logs =~= Seq::empty());
        match self.db.create_battle(&stored_battle) {
            Err(answer) => Err(answer.into_api_error()),
            Ok(_) => Ok(battle_state_response(battle_id, view)),
        }
    }

    /// Create a new battle: checks the two rosters, lets the engine build
    /// the battle, stores it under a fresh identifier, and answers with the
    /// battle as the first side sees it.
    ///
    /// A roster that fails its check ends the operation with a validation
    /// error, and leaves the store as it was.
    pub fn create_battle<B: BattleBuilder>(
        &mut self,
        builder: &B,
        request: CreateBattleRequest,
        now: i64,
    ) -> (r: Result<CreateBattleResponse, ApiError>)
        ensures
            exists|battle_id: u128, trace: BuildTrace| #[trigger]
                battle_created(
                    builder,
                    old(self).db.records(),
                    final(self).db.records(),
                    request,
                    now,
                    battle_id,
                    trace,
                    created_view(r),
                ) && (r matches Ok(response) ==> response.battle_id.0 == battle_id),
            r matches Ok(response) ==> response.battle_state.battle_id == response.battle_id
                && response.status@ == "Battle created successfully"@,
            logs_in_order(old(self).db.records()) ==> logs_in_order(final(self).db.records()),
            r matches Err(e) ==> !e@.from_the_store() || exists|
                m: &mut D,
                b: &StoredBattle,
                answer: StoreError,
            |
                *m == old(self).db && *final(m) == final(self).db && e@ == write_error(answer@)
                    && #[trigger] call_ensures(
                    D::create_battle,
                    (m, b),
                    Err::<(), StoreError>(answer),
                ),
    {
        let battle_id = BattleId::new();
        let text = battle_id.to_string();
        let CreateBattleRequest { player1_id, player2_id, player1_team, player2_team } = request;
        let ghost asked_id = text@;
        let built = create_battle(
            builder,
            text,
            player1_id.clone(),
            &player1_team,
            player2_id.clone(),
            &player2_team,
        );
        let ghost trace = choose|trace: BuildTrace| #[trigger]
            build_asked(
                builder,
                asked_id,
                player1_id@,
                &player1_team,
                player2_id@,
                &player2_team,
                trace,
            ) && built_view(built) == creation_result(
                asked_id,
                player1_id@,
                player1_team@,
                player2_id@,
                player2_team@,
                trace,
            );
        let battle_state = match built {
            Ok(state) => state,
            Err(e) => {
                let r = Err(e);
                assert(battle_created(
                    builder,
                    old(self).db.records(),
                    self.db.records(),
                    request,
                    now,
                    battle_id.0,
                    trace,
                    Err(e@),
                ));
                return r;
            },
        };
        let viewer = player1_id.clone();
        let saved = self.save_battle(battle_id, player1_id, player2_id, battle_state, &viewer, now);
        let r = match saved {
            Err(e) => Err(e),
            Ok(view) => Ok(
                CreateBattleResponse {
                    battle_id,
                    status: String::from_str("Battle created successfully"),
                    battle_state: view,
                },
            ),
        };
        assert(battle_created(
            builder,
            old(self).db.records(),
            self.db.records(),
            request,
            now,
            battle_id.0,
            trace,
            created_view(r),
        ));
        r
    }

    /// Create battle with prefab team vs NPC: lets the engine build the
    /// battle of a player with a ready-made team against an automated
    /// opponent, stores it under a fresh identifier, and answers with the
    /// battle as the player sees it. The two sides are recorded as
    /// `player_1` and `npc`.
    ///
    /// A team that the engine does not have, an opponent that is not on
    /// offer, and a battle that the engine cannot build end the operation
    /// with a validation error, and leave the store as it was.
    pub fn create_mvp_battle<B: BattleBuilder>(
        &mut self,
        builder: &B,
        request: CreateMvpBattleRequest,
        now: i64,
    ) -> (r: Result<CreateMvpBattleResponse, ApiError>)
        ensures
            exists|battle_id: u128, asked: MvpQuestion, trace: MvpTrace| #[trigger]
                mvp_battle_created(
                    builder,
                    old(self).db.records(),
                    final(self).db.records(),
                    request,
                    now,
                    battle_id,
                    asked,
                    trace,
                    mvp_created_view(r),
                ) && (r matches Ok(response) ==> response.battle_id.0 == battle_id),
            r matches Ok(response) ==> response.battle_state.battle_id == response.battle_id
                && response.status@ == "Battle created successfully"@,
            logs_in_order(old(self).db.records()) ==> logs_in_order(final(self).db.records()),
            r matches Err(e) ==> !e@.from_the_store() || exists|
                m: &mut D,
                b: &StoredBattle,
                answer: StoreError,
            |
                *m == old(self).db && *final(m) == final(self).db && e@ == write_error(answer@)
                    && #[trigger] call_ensures(
                    D::create_battle,
                    (m, b),
                    Err::<(), StoreError>(answer),
                ),
    {
        let battle_id = BattleId::new();
        let text = battle_id.to_string();
        let player_name = request.player_name.clone();
        let team_id = request.team_id.as_str();
        let opponent_id = request.opponent_id.as_str();
        let ghost asked = MvpQuestion { battle_id: text, player_name, team_id, opponent_id };
        let built = create_mvp_battle(builder, text, player_name, team_id, opponent_id);
        let ghost trace = choose|trace: MvpTrace| #[trigger]
            mvp_asked(
                builder,
                asked.battle_id,
                asked.player_name,
                asked.team_id,
                asked.opponent_id,
                trace,
            ) && built_view(built) == mvp_creation_result(asked.opponent_id@, trace);
        let battle_state = match built {
            Ok(state) => state,
            Err(e) => {
                let r = Err(e);
                assert(mvp_battle_created(
                    builder,
                    old(self).db.records(),
                    self.db.records(),
                    request,
                    now,
                    battle_id.0,
                    asked,
                    trace,
                    Err(e@),
                ));
                return r;
            },
        };
        let player = PlayerId(String::from_str(MVP_PLAYER_ID));
        let opponent = PlayerId(String::from_str(MVP_OPPONENT_ID));
        let viewer = player.clone();
        let saved = self.save_battle(battle_id, player, opponent, battle_state, &viewer, now);
        let r = match saved {
            Err(e) => Err(e),
            Ok(view) => Ok(
                CreateMvpBattleResponse {
                    battle_id,
                    status: String::from_str("Battle created successfully"),
                    battle_state: view,
                },
            ),
        };
        assert(mvp_battle_created(
            builder,
            old(self).db.records(),
            self.db.records(),
            request,
            now,
            battle_id.0,
            asked,
            trace,
            mvp_created_view(r),
        ));
        r
    }

    /// Writes the outcome of a processed submission back: the battle as the
    /// engine left it, and the events of each resolution, filed in the turn
    /// log. `stored` is the record as it was read.
    ///
    /// Resolutions whose turn number lies before that of the last logged
    /// turn are an internal error: nothing is written. The write fails if
    /// the record is gone or has been rewritten since it was read. A failed
    /// operation leaves the store as it was; its error is then the one that
    /// the store gave for the write of this record, a store conflict only
    /// where the write was not admitted.
    pub fn save_submission(
        &mut self,
        stored: StoredBattle,
        new_battle_state: BattleState,
        turns: &Vec<ResolvedTurn>,
        now: i64,
    ) -> (r: Result<SubmitActionResponse, ApiError>)
        ensures
            !update_admitted(
                old(self).db.records(),
                updated_record(stored@, new_battle_state@, turns.deep_view(), now),
            ) ==> r is Err,
            !turns_follow(last_number(stored@.turn_logs), turns.deep_view()) ==> (r matches Err(e)
                && e@ == turn_went_back()),
            match r {
                Ok(response) => {
                    let written = updated_record(
                        stored@,
                        new_battle_state@,
                        turns.deep_view(),
                        now,
                    );
                    &&& response.success
                    &&& response.battle_updated
                    &&& response.message@ == "Action processed successfully"@
                    &&& turns_follow(last_number(stored@.turn_logs), turns.deep_view())
                    &&& final(self).db.records() == old(self).db.records().insert(
                        stored.battle_id.0,
                        rewritten(old(self).db.records()[stored.battle_id.0], written),
                    )
                },
                Err(e) => final(self).db.records() == old(self).db.records() && if turns_follow(
                    last_number(stored@.turn_logs),
                    turns.deep_view(),
                ) {
                    e@ is DatabaseError || e@ is StoreConflict
                } else {
                    e@ == turn_went_back()
                },
            },
            r matches Err(e) && e@ is StoreConflict ==> !update_admitted(
                old(self).db.records(),
                updated_record(stored@, new_battle_state@, turns.deep_view(), now),
            ),
            r matches Err(e) ==> !turns_follow(
                last_number(stored@.turn_logs),
                turns.deep_view(),
            ) || exists|m: &mut D, b: &StoredBattle, answer: StoreError|
                *m == old(self).db && *final(m) == final(self).db && b@ == updated_record(
                    stored@,
                    new_battle_state@,
                    turns.deep_view(),
                    now,
                ) && e@ == write_error(answer@) && #[trigger] call_ensures(
                    D::update_battle,
                    (m, b),
                    Err::<(), StoreError>(answer),
                ),
            logs_in_order(old(self).db.records()) && turn_numbers_increasing(
                stored@.turn_logs,
            ) ==> logs_in_order(final(self).db.records()),
    {
        if !turns_follow_log(&stored.turn_logs, turns) {
            return Err(
                ApiError::InternalError { message: String::from_str("Turn number went back") },
            );
        }
        let mut stored_battle = stored;
        stored_battle.battle_state = new_battle_state;
        if now > stored_battle.last_updated {
            stored_battle.last_updated = now;
        }
        append_turns(&mut stored_battle.turn_logs, turns, now);
        proof {
            if turn_numbers_increasing(stored@.turn_logs) {
                lemma_appends_keep_order(stored@.turn_logs, turns.deep_view(), now);
            }
        }
        match self.db.update_battle(&stored_battle) {
            Err(answer) => Err(answer.into_api_error()),
            Ok(_) => Ok(
                SubmitActionResponse {
                    success: true,
                    message: String::from_str("Action processed successfully"),
                    battle_updated: true,
                },
            ),
        }
    }

    /// Submit a player action: reads the record of the battle, admits the
    /// action, lets the engine process the battle as far as it goes
    /// without further input, and writes the outcome back.
    ///
    /// The operation is all or nothing: where it fails, for whatever
    /// reason, the store is as it was. A submission that the phase does not
    /// admit fails without the engine being asked. An error is handed on as
    /// it is: the answer is an error of the store only where the store
    /// failed the read or did not take the write, with what the store gave
    /// as the reason, and otherwise the error that the submission came to
    /// ([`submission_failed`]). An engine whose count of turns goes back is
    /// an internal error.
    pub fn submit_action<E: ResolutionEngine>(
        &mut self,
        engine: &E,
        request: SubmitActionRequest,
        now: i64,
    ) -> (r: Result<SubmitActionResponse, ApiError>)
        ensures
            submission_answered(
                engine,
                &old(self).db,
                final(self).db.records(),
                request,
                now,
                r,
            ),
            r matches Err(err) ==> !err@.from_the_store() || read_error(
                &old(self).db,
                request.battle_id,
                err@,
            ) || exists|m: &mut D, b: &StoredBattle, answer: StoreError|
                *m == old(self).db && *final(m) == final(self).db && b.battle_id
                    == request.battle_id && err@ == write_error(answer@)
                    && #[trigger] call_ensures(
                    D::update_battle,
                    (m, b),
                    Err::<(), StoreError>(answer),
                ),
    {
        let stored_battle = match self.load_battle(request.battle_id) {
            Ok(stored) => stored,
            Err(e) => { return Err(e); },
        };
        let ghost before = stored_battle@;
        let battle_state = stored_battle.battle_state.clone();
        let ghost asked_about = battle_state;
        let submitted = submit_action(engine, battle_state, &request.player_id, request.action);
        // What the engine was asked and answered, where the phase admitted
        // the submission.
        let ghost trace = choose|trace: SubmissionTrace| #[trigger]
            submission_asked(engine, asked_about, request.player_id@, request.action, trace)
                && submission_result(
                asked_about@,
                request.player_id@,
                request.action,
                verdict_model(trace.verdict),
                trace.asked.answers(),
            ) == Some(ticks_view(submitted));
        let ghost admitted = rejection(asked_about@, request.player_id@, request.action) is None;
        let (new_battle_state, turns) = match submitted {
            Ok(outcome) => outcome,
            Err(e) => {
                proof {
                    if admitted {
                        assert(explains_error(
                            engine,
                            before,
                            request.player_id@,
                            request.action,
                            asked_about,
                            trace,
                            e@,
                        ));
                    }
                }
                return Err(e);
            },
        };
        let r = self.save_submission(stored_battle, new_battle_state, &turns, now);
        proof {
            match &r {
                Ok(_) => {
                    assert(explains_record(
                        engine,
                        before,
                        request.player_id@,
                        request.action,
                        now,
                        asked_about,
                        trace,
                        turns.deep_view(),
                        final(self).db.records()[request.battle_id.0],
                    ));
                },
                Err(e) => {
                    assert(explains_error(
                        engine,
                        before,
                        request.player_id@,
                        request.action,
                        asked_about,
                        trace,
                        e@,
                    ));
                },
            }
        }
        r
    }

    /// Get valid actions for a player: those that the engine lists for the
    /// requesting side of the stored battle.
    pub fn get_valid_actions<E: ResolutionEngine>(
        &self,
        engine: &E,
        request: GetValidActionsRequest,
    ) -> (r: Result<GetValidActionsResponse, ApiError>)
        ensures
            (r matches Err(e) && read_error(&self.db, request.battle_id, e@)) || match state_answer(
                self.db.records(),
                request.battle_id.0,
                request.player_id@,
            ) {
                Ok(_) => r matches Ok(response) && response.battle_id == request.battle_id
                    && exists|state: BattleState| #[trigger]
                    lists_actions(
                        engine,
                        state,
                        player_index(state@, request.player_id@).unwrap(),
                        response.valid_actions,
                    ) && state@ == self.db.records()[request.battle_id.0].battle_state,
                Err(e) => r matches Err(err) && err@ == e,
            },
    {
        let stored_battle = match self.load_battle(request.battle_id) {
            Ok(stored) => stored,
            Err(e) => { return Err(e); },
        };
        match get_player_valid_actions(engine, &stored_battle.battle_state, &request.player_id) {
            Ok(valid_actions) => {
                let r = Ok(valid_actions_response(request.battle_id, valid_actions));
                assert(lists_actions(
                    engine,
                    stored_battle.battle_state,
                    player_index(stored_battle.battle_state@, request.player_id@).unwrap(),
                    valid_actions,
                ));
                r
            },
            Err(e) => Err(e),
        }
    }

    /// Get current battle state, as the requesting side may see it.
    pub fn get_battle_state(&self, request: GetBattleStateRequest) -> (r: Result<
        GetBattleStateResponse,
        ApiError,
    >)
        ensures
            r matches Ok(response) ==> response.battle_id == request.battle_id,
            (r matches Err(e) && read_error(&self.db, request.battle_id, e@)) || match r {
                Ok(response) => Ok(response@),
                Err(e) => Err(e@),
            } == state_answer(self.db.records(), request.battle_id.0, request.player_id@),
    {
        let stored_battle = match self.load_battle(request.battle_id) {
            Ok(stored) => stored,
            Err(e) => { return Err(e); },
        };
        let battle_view = match get_battle_state_for_player(
            &stored_battle.battle_state,
            &request.player_id,
        ) {
            Ok(view) => view,
            Err(e) => { return Err(e); },
        };
        Ok(battle_state_response(request.battle_id, battle_view))
    }

    /// Get team information: the requesting side's view of its own team.
    pub fn get_team_info(&self, request: GetTeamInfoRequest) -> (r: Result<
        GetTeamInfoResponse,
        ApiError,
    >)
        ensures
            r matches Ok(response) ==> response.battle_id == request.battle_id,
            (r matches Err(e) && read_error(&self.db, request.battle_id, e@)) || match r {
                Ok(response) => Ok(response.team@),
                Err(e) => Err(e@),
            } == match state_answer(self.db.records(), request.battle_id.0, request.player_id@) {
                Ok(view) => Ok::<TeamModel, ErrorModel>(view.player_team),
                Err(e) => Err(e),
            },
    {
        let stored_battle = match self.load_battle(request.battle_id) {
            Ok(stored) => stored,
            Err(e) => { return Err(e); },
        };
        let battle_view = match get_battle_state_for_player(
            &stored_battle.battle_state,
            &request.player_id,
        ) {
            Ok(view) => view,
            Err(e) => { return Err(e); },
        };
        Ok(
            GetTeamInfoResponse {
                battle_id: request.battle_id,
                team: convert_team_view(battle_view.player_team),
            },
        )
    }

    /// Get battle events: the whole turn log, or its last entries. The
    /// answer is a function of the stored record and the request alone, and
    /// the store is left as it is.
    pub fn get_battle_events(&self, request: GetBattleEventsRequest) -> (r: Result<
        GetBattleEventsResponse,
        ApiError,
    >)
        ensures
            events_answered(&self.db, request, r),
    {
        let stored_battle = match self.load_battle(request.battle_id) {
            Ok(stored) => stored,
            Err(e) => { return Err(e); },
        };
        match validate_player_authorization(&stored_battle.battle_state, &request.player_id) {
            Ok(_) => {},
            Err(e) => { return Err(e); },
        }
        let turn_logs = recent_turn_logs(&stored_battle.turn_logs, request.last_turns);
        Ok(
            GetBattleEventsResponse {
                battle_id: request.battle_id,
                turn_logs,
                total_turns: stored_battle.battle_state.turn_number,
            },
        )
    }
}

} // verus!
