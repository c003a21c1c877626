//! Admission of actions, the views of a battle, and what comes before a
//! battle: the decisions that surround the resolution engine.
//!
//! - [`admission`]: who may submit what, and when;
//! - [`submission`]: a submission from end to end, with the engine;
//! - [`views`]: what each player is shown;
//! - [`roster`], [`offers`]: what is checked and offered before a battle;
//! - [`creation`]: the creation of a battle, with the engine.
//!
//! Nothing here reads or writes anything but the values it is given, and
//! what it asks of the engine.

pub mod admission;
pub mod creation;
pub mod offers;
pub mod roster;
pub mod submission;
pub mod views;

pub use admission::{
    action_context_verdict, admit_action, apply_npc_actions, can_act, can_player_act,
    get_player_index, player_index, player_index_or_error, queue_with, rejected,
    submission_outcome, validate_action_context, validate_player_authorization, verdict_model,
    with_action,
};
pub use creation::{
    build_asked, built_view, create_battle, create_mvp_battle, creation_result, looked_up,
    mvp_asked, mvp_creation_result, BuildTrace, MvpTrace, MVP_OPPONENT_ID, MVP_PLAYER_ID,
};
pub use offers::{
    average_defined, average_is_defined, average_level, difficulty_of, get_available_teams,
    get_npc_opponents, level_sum, mvp_battle_plan, npc_difficulty, npc_opponents, plan_mvp_battle,
    prefab_team_info, team_info_of, PrefabTeam,
};
pub use roster::{
    battle_plan, entries_verdict, entry_verdict, invalid, lookup_at, plan_battle,
    roster_in_bounds, roster_model, size_allowed, team_verdict, validate_team,
    validate_team_pokemon, BattlePlan, EntryLookup, EntryModel, PlanModel, MAX_LEVEL,
    MAX_MOVES, MAX_TEAM_SIZE,
};
pub use submission::{
    get_player_valid_actions, rejection, submission_asked, submission_result, submit_action,
    SubmissionTrace,
};
pub use views::{
    bench_standing, create_opponent_view, create_player_team_view, detail_of,
    get_battle_state_for_player, lemma_standing_without, opponent_view_of, player_view_of,
    player_view_or_error, pokemon_detail, pokemon_summary, slot_detail, slot_summary,
    standing, summary_of, team_view_of, DetailModel, MoveView, OpponentModel, OpponentView,
    PlayerBattleView, PlayerViewModel, PokemonDetailView, PokemonSummaryView, SummaryModel,
    TeamModel, TeamView,
};
