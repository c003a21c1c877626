//! The views of a battle in the form in which they are sent to a client.

use crate::battle::PlayerAction;
use crate::engine::{
    MoveView, OpponentView, PlayerBattleView, PlayerViewModel, PokemonDetailView,
    PokemonSummaryView, TeamView,
};
use crate::ids::BattleId;
use crate::text::clone_optional_string;
use crate::types::{
    ApiMoveView, ApiOpponentView, ApiPokemonDetail, ApiPokemonSummary, ApiTeamView,
    GetBattleStateResponse, GetValidActionsResponse,
};
use vstd::prelude::*;

verus! {

/// A move in the form that is sent to a client.
pub fn convert_move_view(move_view: MoveView) -> (r: ApiMoveView)
    ensures
        r@ == move_view@,
{
    ApiMoveView { move_: move_view.move_, pp: move_view.pp, max_pp: move_view.max_pp }
}

/// A copy of the moves of a Pokémon in the form that is sent to a client.
fn moves_for_client(moves: &Vec<Option<MoveView>>) -> (r: Vec<Option<ApiMoveView>>)
    ensures
        r.deep_view() == moves.deep_view(),
{
    let mut copy: Vec<Option<ApiMoveView>> = Vec::new();
    let mut i: usize = 0;
    while i < moves.len()
        invariant
            i <= moves.len(),
            copy.len() == i,
            forall|k: int| 0 <= k < i ==> copy[k].deep_view() == moves[k].deep_view(),
        decreases moves.len() - i,
    {
        let slot = match &moves[i] {
            Some(m) => Some(ApiMoveView { move_: m.move_.clone(), pp: m.pp, max_pp: m.max_pp }),
            None => None,
        };
        copy.push(slot);
        i += 1;
    }
    assert(copy.deep_view() =~= moves.deep_view());
    copy
}

/// The detail of a Pokémon in the form that is sent to a client.
pub fn convert_pokemon_detail(pokemon: PokemonDetailView) -> (r: ApiPokemonDetail)
    ensures
        r@ == pokemon@,
{
    ApiPokemonDetail {
        moves: moves_for_client(&pokemon.moves),
        name: pokemon.name,
        species: pokemon.species,
        level: pokemon.level,
        current_hp: pokemon.current_hp,
        max_hp: pokemon.max_hp,
        attack: pokemon.stats.attack,
        defense: pokemon.stats.defense,
        sp_attack: pokemon.stats.sp_attack,
        sp_defense: pokemon.stats.sp_defense,
        speed: pokemon.stats.speed,
        status: pokemon.status,
    }
}

/// A copy of the detail of a Pokémon in the form that is sent to a client.
fn detail_for_client(pokemon: &PokemonDetailView) -> (r: ApiPokemonDetail)
    ensures
        r@ == pokemon@,
{
    ApiPokemonDetail {
        name: pokemon.name.clone(),
        species: pokemon.species.clone(),
        level: pokemon.level,
        current_hp: pokemon.current_hp,
        max_hp: pokemon.max_hp,
        attack: pokemon.stats.attack,
        defense: pokemon.stats.defense,
        sp_attack: pokemon.stats.sp_attack,
        sp_defense: pokemon.stats.sp_defense,
        speed: pokemon.stats.speed,
        moves: moves_for_client(&pokemon.moves),
        status: clone_optional_string(&pokemon.status),
    }
}

/// The public facts of a Pokémon in the form that is sent to a client.
pub fn convert_pokemon_summary(pokemon: PokemonSummaryView) -> (r: ApiPokemonSummary)
    ensures
        r@ == pokemon@,
{
    ApiPokemonSummary {
        name: pokemon.name,
        species: pokemon.species,
        level: pokemon.level,
        current_hp: pokemon.current_hp,
        max_hp: pokemon.max_hp,
        is_fainted: pokemon.is_fainted,
        status: pokemon.status,
    }
}

/// A copy of the public facts of a Pokémon in the form that is sent to a
/// client.
fn summary_for_client(pokemon: &PokemonSummaryView) -> (r: ApiPokemonSummary)
    ensures
        r@ == pokemon@,
{
    ApiPokemonSummary {
        name: pokemon.name.clone(),
        species: pokemon.species.clone(),
        level: pokemon.level,
        current_hp: pokemon.current_hp,
        max_hp: pokemon.max_hp,
        is_fainted: pokemon.is_fainted,
        status: clone_optional_string(&pokemon.status),
    }
}

/// A player's view of the own team in the form that is sent to a client.
pub fn convert_team_view(team_view: TeamView) -> (r: ApiTeamView)
    ensures
        r@ == team_view@,
{
    let mut team_pokemon: Vec<Option<ApiPokemonSummary>> = Vec::new();
    let mut i: usize = 0;
    while i < team_view.team_pokemon.len()
        invariant
            i <= team_view.team_pokemon.len(),
            team_pokemon.len() == i,
            forall|k: int|
                0 <= k < i ==> team_pokemon[k].deep_view()
                    == team_view.team_pokemon[k].deep_view(),
        decreases team_view.team_pokemon.len() - i,
    {
        let slot = match &team_view.team_pokemon[i] {
            Some(p) => Some(summary_for_client(p)),
            None => None,
        };
        team_pokemon.push(slot);
        i += 1;
    }
    assert(team_pokemon.deep_view() =~= team_view.team_pokemon.deep_view());
    let mut team_detail: Vec<Option<ApiPokemonDetail>> = Vec::new();
    let mut j: usize = 0;
    while j < team_view.team_detail.len()
        invariant
            j <= team_view.team_detail.len(),
            team_detail.len() == j,
            forall|k: int|
                0 <= k < j ==> team_detail[k].deep_view() == team_view.team_detail[k].deep_view(),
        decreases team_view.team_detail.len() - j,
    {
        let slot = match &team_view.team_detail[j] {
            Some(p) => Some(detail_for_client(p)),
            None => None,
        };
        team_detail.push(slot);
        j += 1;
    }
    assert(team_detail.deep_view() =~= team_view.team_detail.deep_view());
    let active_pokemon = match team_view.active_pokemon {
        Some(p) => Some(convert_pokemon_detail(p)),
        None => None,
    };
    ApiTeamView { active_pokemon, team_pokemon, team_detail }
}

/// A player's view of the other side in the form that is sent to a client.
pub fn convert_opponent_view(opponent: OpponentView) -> (r: ApiOpponentView)
    ensures
        r@ == opponent@,
{
    let active_pokemon = match opponent.active_pokemon {
        Some(p) => Some(convert_pokemon_summary(p)),
        None => None,
    };
    ApiOpponentView {
        player_name: opponent.player_name,
        active_pokemon,
        remaining_pokemon_count: opponent.remaining_pokemon_count,
    }
}

impl View for GetBattleStateResponse {
    type V = PlayerViewModel;

    open spec fn view(&self) -> PlayerViewModel {
        PlayerViewModel {
            game_state: self.game_state,
            turn_number: self.turn_number,
            player_team: self.player_team@,
            opponent_public_info: self.opponent_info@,
            can_act: self.can_act,
        }
    }
}

/// The answer to a request for the state of a battle.
pub fn battle_state_response(battle_id: BattleId, battle_view: PlayerBattleView) -> (r:
    GetBattleStateResponse)
    ensures
        r.battle_id == battle_id,
        r@ == battle_view@,
{
    GetBattleStateResponse {
        battle_id,
        game_state: battle_view.game_state,
        turn_number: battle_view.turn_number,
        can_act: battle_view.can_act,
        player_team: convert_team_view(battle_view.player_team),
        opponent_info: convert_opponent_view(battle_view.opponent_public_info),
    }
}

/// The answer to a request for the legal actions of a side.
pub fn valid_actions_response(battle_id: BattleId, valid_actions: Vec<PlayerAction>) -> (r:
    GetValidActionsResponse)
    ensures
        r.battle_id == battle_id,
        r.valid_actions == valid_actions,
{
    GetValidActionsResponse { battle_id, valid_actions }
}

} // verus!
