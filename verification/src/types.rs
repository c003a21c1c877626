//! Requests, responses and the stored record of a session.

use crate::battle::{BattleModel, BattleState, GameState, MoveModel, PlayerAction};
use crate::engine::{DetailModel, OpponentModel, SummaryModel, TeamModel};
use crate::ids::{BattleId, PlayerId};
use crate::text::clone_strings;
use vstd::prelude::*;

verus! {

/// Request to create a new battle.
#[derive(Debug)]
pub struct CreateBattleRequest {
    pub player1_id: PlayerId,
    pub player2_id: PlayerId,
    pub player1_team: Vec<TeamPokemon>,
    pub player2_team: Vec<TeamPokemon>,
}

/// Pokemon configuration for team setup.
#[derive(Debug)]
pub struct TeamPokemon {
    pub species: String,
    pub level: u8,
    pub moves: Vec<String>,
    pub nickname: Option<String>,
}

/// Response when creating a battle.
#[derive(Debug)]
pub struct CreateBattleResponse {
    pub battle_id: BattleId,
    pub status: String,
    /// The initial state, as the first side sees it.
    pub battle_state: GetBattleStateResponse,
}

/// Request to submit a player action.
#[derive(Debug)]
pub struct SubmitActionRequest {
    pub battle_id: BattleId,
    pub player_id: PlayerId,
    pub action: PlayerAction,
}

/// Response after submitting an action.
#[derive(Debug)]
pub struct SubmitActionResponse {
    pub success: bool,
    pub message: String,
    pub battle_updated: bool,
}

/// Request to get current battle state.
#[derive(Debug)]
pub struct GetBattleRequest {
    pub battle_id: BattleId,
    /// For player-specific views.
    pub player_id: Option<PlayerId>,
}

/// Response containing battle state information.
#[derive(Debug)]
pub struct GetBattleResponse {
    pub battle_id: BattleId,
    pub game_state: GameState,
    pub current_turn: u32,
    pub players: Vec<PlayerSummary>,
    /// Recent battle events as human-readable strings.
    pub events: Vec<String>,
}

/// Summary information about a player in the battle.
#[derive(Debug)]
pub struct PlayerSummary {
    pub player_id: PlayerId,
    pub player_name: String,
    pub active_pokemon: Option<PokemonSummary>,
    pub team_size: usize,
    pub remaining_pokemon: usize,
}

/// Summary information about a Pokemon.
#[derive(Debug)]
pub struct PokemonSummary {
    pub name: String,
    pub species: String,
    pub level: u8,
    pub current_hp: u16,
    pub max_hp: u16,
    pub status: Option<String>,
}

/// The events of one turn, as a mathematical value.
pub struct TurnLogModel {
    pub turn_number: u32,
    pub events: Seq<Seq<char>>,
    pub timestamp: i64,
}

/// Turn log entry storing events for a specific turn.
#[derive(Debug)]
pub struct TurnLog {
    pub turn_number: u32,
    /// Human-readable event messages.
    pub events: Vec<String>,
    /// When this turn was processed.
    pub timestamp: i64,
}

impl View for TurnLog {
    type V = TurnLogModel;

    open spec fn view(&self) -> TurnLogModel {
        TurnLogModel {
            turn_number: self.turn_number,
            events: self.events.deep_view(),
            timestamp: self.timestamp,
        }
    }
}

impl DeepView for TurnLog {
    type V = TurnLogModel;

    open spec fn deep_view(&self) -> TurnLogModel {
        self@
    }
}

/// A stored session, as a mathematical value.
pub struct StoredModel {
    pub battle_id: u128,
    pub player1_id: Seq<char>,
    pub player2_id: Seq<char>,
    pub battle_state: BattleModel,
    pub turn_logs: Seq<TurnLogModel>,
    pub created_at: i64,
    pub last_updated: i64,
    pub version: u64,
}

/// Stored battle data: one record per session.
#[derive(Debug)]
pub struct StoredBattle {
    pub battle_id: BattleId,
    pub player1_id: PlayerId,
    pub player2_id: PlayerId,
    pub battle_state: BattleState,
    /// Events per turn for battle log.
    pub turn_logs: Vec<TurnLog>,
    /// Unix timestamp.
    pub created_at: i64,
    /// Unix timestamp.
    pub last_updated: i64,
    /// How often the record has been rewritten. A writer hands back the
    /// version that it read; the store takes the write only if the record
    /// still has that version.
    pub version: u64,
}

impl View for StoredBattle {
    type V = StoredModel;

    open spec fn view(&self) -> StoredModel {
        StoredModel {
            battle_id: self.battle_id.0,
            player1_id: self.player1_id@,
            player2_id: self.player2_id@,
            battle_state: self.battle_state@,
            turn_logs: self.turn_logs.deep_view(),
            created_at: self.created_at,
            last_updated: self.last_updated,
            version: self.version,
        }
    }
}

impl DeepView for StoredBattle {
    type V = StoredModel;

    open spec fn deep_view(&self) -> StoredModel {
        self@
    }
}

/// Request to get battle state.
#[derive(Debug)]
pub struct GetBattleStateRequest {
    pub battle_id: BattleId,
    pub player_id: PlayerId,
}

/// Response containing battle state.
#[derive(Debug)]
pub struct GetBattleStateResponse {
    pub battle_id: BattleId,
    pub game_state: GameState,
    pub turn_number: u32,
    pub can_act: bool,
    pub player_team: ApiTeamView,
    pub opponent_info: ApiOpponentView,
}

/// Request to get valid actions.
#[derive(Debug)]
pub struct GetValidActionsRequest {
    pub battle_id: BattleId,
    pub player_id: PlayerId,
}

/// Response containing valid actions.
#[derive(Debug)]
pub struct GetValidActionsResponse {
    pub battle_id: BattleId,
    pub valid_actions: Vec<PlayerAction>,
}

/// Request to get team information.
#[derive(Debug)]
pub struct GetTeamInfoRequest {
    pub battle_id: BattleId,
    pub player_id: PlayerId,
}

/// Response containing team information.
#[derive(Debug)]
pub struct GetTeamInfoResponse {
    pub battle_id: BattleId,
    pub team: ApiTeamView,
}

/// API representation of team view.
#[derive(Debug)]
pub struct ApiTeamView {
    pub active_pokemon: Option<ApiPokemonDetail>,
    pub team_pokemon: Vec<Option<ApiPokemonSummary>>,
    pub team_detail: Vec<Option<ApiPokemonDetail>>,
}

impl View for ApiTeamView {
    type V = TeamModel;

    open spec fn view(&self) -> TeamModel {
        TeamModel {
            active_pokemon: self.active_pokemon.deep_view(),
            team_pokemon: self.team_pokemon.deep_view(),
            team_detail: self.team_detail.deep_view(),
        }
    }
}

/// Detailed Pokemon information for API.
#[derive(Debug)]
pub struct ApiPokemonDetail {
    pub name: String,
    pub species: String,
    pub level: u8,
    pub current_hp: u16,
    pub max_hp: u16,
    pub attack: u16,
    pub defense: u16,
    pub sp_attack: u16,
    pub sp_defense: u16,
    pub speed: u16,
    pub moves: Vec<Option<ApiMoveView>>,
    pub status: Option<String>,
}

impl View for ApiPokemonDetail {
    type V = DetailModel;

    open spec fn view(&self) -> DetailModel {
        DetailModel {
            name: self.name@,
            species: self.species@,
            level: self.level,
            current_hp: self.current_hp,
            max_hp: self.max_hp,
            stats: crate::battle::CurrentStats {
                attack: self.attack,
                defense: self.defense,
                sp_attack: self.sp_attack,
                sp_defense: self.sp_defense,
                speed: self.speed,
            },
            moves: self.moves.deep_view(),
            status: self.status.deep_view(),
        }
    }
}

impl DeepView for ApiPokemonDetail {
    type V = DetailModel;

    open spec fn deep_view(&self) -> DetailModel {
        self@
    }
}

/// Summary Pokemon information for API.
#[derive(Debug)]
pub struct ApiPokemonSummary {
    pub name: String,
    pub species: String,
    pub level: u8,
    pub current_hp: u16,
    pub max_hp: u16,
    pub is_fainted: bool,
    pub status: Option<String>,
}

impl View for ApiPokemonSummary {
    type V = SummaryModel;

    open spec fn view(&self) -> SummaryModel {
        SummaryModel {
            name: self.name@,
            species: self.species@,
            level: self.level,
            current_hp: self.current_hp,
            max_hp: self.max_hp,
            is_fainted: self.is_fainted,
            status: self.status.deep_view(),
        }
    }
}

impl DeepView for ApiPokemonSummary {
    type V = SummaryModel;

    open spec fn deep_view(&self) -> SummaryModel {
        self@
    }
}

/// Move information for API.
#[derive(Debug)]
pub struct ApiMoveView {
    pub move_: String,
    pub pp: u8,
    pub max_pp: u8,
}

impl View for ApiMoveView {
    type V = MoveModel;

    open spec fn view(&self) -> MoveModel {
        MoveModel { move_: self.move_@, pp: self.pp, max_pp: self.max_pp }
    }
}

impl DeepView for ApiMoveView {
    type V = MoveModel;

    open spec fn deep_view(&self) -> MoveModel {
        self@
    }
}

/// Opponent information for API.
#[derive(Debug)]
pub struct ApiOpponentView {
    pub player_name: String,
    pub active_pokemon: Option<ApiPokemonSummary>,
    pub remaining_pokemon_count: usize,
}

impl View for ApiOpponentView {
    type V = OpponentModel;

    open spec fn view(&self) -> OpponentModel {
        OpponentModel {
            player_name: self.player_name@,
            active_pokemon: self.active_pokemon.deep_view(),
            remaining_pokemon_count: self.remaining_pokemon_count as nat,
        }
    }
}

/// Response for available teams endpoint.
#[derive(Debug)]
pub struct AvailableTeamsResponse {
    pub teams: Vec<PrefabTeamInfo>,
}

/// A ready-made team on offer, as a mathematical value.
pub struct PrefabTeamModel {
    pub id: Seq<char>,
    pub name: Seq<char>,
    pub description: Seq<char>,
    pub pokemon_count: usize,
    pub average_level: u8,
}

/// Prefab team information for API.
#[derive(Debug)]
pub struct PrefabTeamInfo {
    pub id: String,
    pub name: String,
    pub description: String,
    pub pokemon_count: usize,
    pub average_level: u8,
}

impl View for PrefabTeamInfo {
    type V = PrefabTeamModel;

    open spec fn view(&self) -> PrefabTeamModel {
        PrefabTeamModel {
            id: self.id@,
            name: self.name@,
            description: self.description@,
            pokemon_count: self.pokemon_count,
            average_level: self.average_level,
        }
    }
}

impl DeepView for PrefabTeamInfo {
    type V = PrefabTeamModel;

    open spec fn deep_view(&self) -> PrefabTeamModel {
        self@
    }
}

/// Response for NPC opponents endpoint.
#[derive(Debug)]
pub struct NpcOpponentsResponse {
    pub opponents: Vec<NpcOpponentInfo>,
}

/// An automated opponent on offer, as a mathematical value.
pub struct NpcOpponentModel {
    pub id: Seq<char>,
    pub name: Seq<char>,
    pub description: Seq<char>,
    pub difficulty: Seq<char>,
}

/// NPC opponent information for API.
#[derive(Debug)]
pub struct NpcOpponentInfo {
    pub id: String,
    pub name: String,
    pub description: String,
    pub difficulty: String,
}

impl View for NpcOpponentInfo {
    type V = NpcOpponentModel;

    open spec fn view(&self) -> NpcOpponentModel {
        NpcOpponentModel {
            id: self.id@,
            name: self.name@,
            description: self.description@,
            difficulty: self.difficulty@,
        }
    }
}

impl DeepView for NpcOpponentInfo {
    type V = NpcOpponentModel;

    open spec fn deep_view(&self) -> NpcOpponentModel {
        self@
    }
}

/// Simplified request to create a battle against an automated opponent.
#[derive(Debug)]
pub struct CreateMvpBattleRequest {
    pub player_name: String,
    pub team_id: String,
    pub opponent_id: String,
}

/// Response to [`CreateMvpBattleRequest`].
#[derive(Debug)]
pub struct CreateMvpBattleResponse {
    pub battle_id: BattleId,
    pub status: String,
    /// The initial state, as the player sees it.
    pub battle_state: GetBattleStateResponse,
}

/// Request to get battle events/log.
#[derive(Debug)]
pub struct GetBattleEventsRequest {
    pub battle_id: BattleId,
    pub player_id: PlayerId,
    /// If specified, get only the last X turns; if `None`, get all.
    pub last_turns: Option<u32>,
}

/// Response containing battle events.
#[derive(Debug)]
pub struct GetBattleEventsResponse {
    pub battle_id: BattleId,
    pub turn_logs: Vec<TurnLog>,
    pub total_turns: u32,
}

impl Clone for TurnLog {
    fn clone(&self) -> (r: Self)
        ensures
            r@ == self@,
    {
        TurnLog {
            turn_number: self.turn_number,
            events: clone_strings(&self.events),
            timestamp: self.timestamp,
        }
    }
}

/// A copy of a turn log.
pub fn clone_turn_logs(logs: &Vec<TurnLog>) -> (r: Vec<TurnLog>)
    ensures
        r.deep_view() == logs.deep_view(),
{
    let mut copy: Vec<TurnLog> = Vec::new();
    let mut i: usize = 0;
    while i < logs.len()
        invariant
            i <= logs.len(),
            copy.len() == i,
            forall|k: int| 0 <= k < i ==> copy[k]@ == logs[k]@,
        decreases logs.len() - i,
    {
        copy.push(logs[i].clone());
        i += 1;
    }
    assert(copy.deep_view() =~= logs.deep_view());
    copy
}

impl Clone for StoredBattle {
    fn clone(&self) -> (r: Self)
        ensures
            r@ == self@,
    {
        StoredBattle {
            battle_id: self.battle_id,
            player1_id: self.player1_id.clone(),
            player2_id: self.player2_id.clone(),
            battle_state: self.battle_state.clone(),
            turn_logs: clone_turn_logs(&self.turn_logs),
            created_at: self.created_at,
            last_updated: self.last_updated,
            version: self.version,
        }
    }
}

} // verus!
