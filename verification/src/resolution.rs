//! The resolution engine, as the session layer calls it.
//!
//! The engine owns the rules of combat. Of its answers nothing is assumed
//! here: whatever uses an engine is verified for every answer that an
//! engine may give.

use crate::battle::{BattleState, PlayerAction};
use crate::engine::offers::PrefabTeam;
use crate::engine::roster::{roster_in_bounds, roster_model, BattlePlan, EntryLookup};
use crate::types::TeamPokemon;
use vstd::prelude::*;

verus! {

/// What the session layer asks of a resolution engine.
pub trait ResolutionEngine {
    /// The engine's own check of an action: whether the action of side
    /// `player_index` is legal in its details, or the reason why it is not.
    fn validate_player_action(
        &self,
        battle_state: &BattleState,
        player_index: usize,
        action: &PlayerAction,
    ) -> Result<(), String>
        requires
            player_index < 2,
    ;

    /// The actions that the automated sides decide on, each with its side.
    fn collect_npc_actions(&self, battle_state: &BattleState) -> Vec<(usize, PlayerAction)>;

    /// Whether the battle is ready for the resolution of a turn.
    fn ready_for_turn_resolution(&self, battle_state: &BattleState) -> bool;

    /// Resolves one turn with a fresh source of randomness: the battle as
    /// it stands afterwards, and the events of the turn, formatted, in the
    /// order in which they occurred.
    fn resolve_turn(&self, battle_state: &BattleState) -> (BattleState, Vec<String>);

    /// The actions that are legal for side `player_index`.
    fn get_valid_actions(&self, battle_state: &BattleState, player_index: usize) -> Vec<
        PlayerAction,
    >
        requires
            player_index < 2,
    ;
}

/// What the session layer asks of the engine before a battle: what it
/// knows of the entries of a roster, and the battles that it builds.
pub trait BattleBuilder {
    /// What the engine knows of a roster entry: whether it has data for the
    /// species, and whether it knows every move.
    fn lookup(&self, entry: &TeamPokemon) -> EntryLookup;

    /// Builds the battle of a plan from the two rosters. The rosters have
    /// passed their check.
    fn build_battle(
        &self,
        plan: &BattlePlan,
        player1_team: &Vec<TeamPokemon>,
        player2_team: &Vec<TeamPokemon>,
    ) -> BattleState
        requires
            roster_in_bounds(roster_model(player1_team@)),
            roster_in_bounds(roster_model(player2_team@)),
    ;

    /// Whether the engine has the ready-made team `team_id`, or the reason
    /// why it cannot make a player of it.
    fn check_prefab_team(&self, team_id: &str) -> Result<(), String>;

    /// Builds the battle of the player `player_id` with the ready-made team
    /// `team_id` against an automated opponent of the given difficulty, or
    /// gives the reason why it cannot.
    fn build_mvp_battle(
        &self,
        battle_id: &String,
        player_id: &str,
        player_name: &String,
        team_id: &str,
        difficulty: &str,
    ) -> Result<BattleState, String>;

    /// The ready-made teams that the engine offers.
    fn prefab_teams(&self) -> Vec<PrefabTeam>;
}

} // verus!
