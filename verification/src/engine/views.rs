//! What each player is shown of a battle: the own team in full, and of the
//! other side no more than is public.

use crate::battle::{
    BattleModel, BattlePlayer, BattleState, CurrentStats, GameState, MoveInstance, MoveModel,
    PlayerModel, PokemonInst, PokemonModel,
};
use crate::engine::admission::{can_act, can_player_act, get_player_index, player_index};
use crate::errors::{ApiError, ErrorModel};
use crate::ids::PlayerId;
use crate::text::clone_optional_string;
use vstd::prelude::*;

verus! {

/// What a player is shown of a Pokémon of the other side, and of the own
/// Pokémon on the bench, as a mathematical value.
pub struct SummaryModel {
    pub name: Seq<char>,
    pub species: Seq<char>,
    pub level: u8,
    pub current_hp: u16,
    pub max_hp: u16,
    pub is_fainted: bool,
    pub status: Option<Seq<char>>,
}

/// What a player is shown of the own active Pokémon, as a mathematical value.
pub struct DetailModel {
    pub name: Seq<char>,
    pub species: Seq<char>,
    pub level: u8,
    pub current_hp: u16,
    pub max_hp: u16,
    pub stats: CurrentStats,
    pub moves: Seq<Option<MoveModel>>,
    pub status: Option<Seq<char>>,
}

/// A player's view of the own team, as a mathematical value.
pub struct TeamModel {
    pub active_pokemon: Option<DetailModel>,
    pub team_pokemon: Seq<Option<SummaryModel>>,
    pub team_detail: Seq<Option<DetailModel>>,
}

/// A player's view of the other side, as a mathematical value.
pub struct OpponentModel {
    pub player_name: Seq<char>,
    pub active_pokemon: Option<SummaryModel>,
    pub remaining_pokemon_count: nat,
}

/// A battle from one player's perspective, as a mathematical value.
pub struct PlayerViewModel {
    pub game_state: GameState,
    pub turn_number: u32,
    pub player_team: TeamModel,
    pub opponent_public_info: OpponentModel,
    pub can_act: bool,
}

/// The public facts of a Pokémon.
pub open spec fn summary_of(p: PokemonModel) -> SummaryModel {
    SummaryModel {
        name: p.name,
        species: p.species,
        level: p.level,
        current_hp: p.current_hp,
        max_hp: p.max_hp,
        is_fainted: p.fainted,
        status: p.status,
    }
}

/// Everything that the owner is shown of a Pokémon.
pub open spec fn detail_of(p: PokemonModel) -> DetailModel {
    DetailModel {
        name: p.name,
        species: p.species,
        level: p.level,
        current_hp: p.current_hp,
        max_hp: p.max_hp,
        stats: p.stats,
        moves: p.moves,
        status: p.status,
    }
}

/// The summary of a roster slot, empty where the slot is.
pub open spec fn slot_summary(slot: Option<PokemonModel>) -> Option<SummaryModel> {
    match slot {
        Some(p) => Some(summary_of(p)),
        None => None,
    }
}

/// The detail of a roster slot, empty where the slot is.
pub open spec fn slot_detail(slot: Option<PokemonModel>) -> Option<DetailModel> {
    match slot {
        Some(p) => Some(detail_of(p)),
        None => None,
    }
}

/// Whether a roster slot holds a Pokémon that has not fainted.
pub open spec fn standing(slot: Option<PokemonModel>) -> bool {
    slot matches Some(p) && !p.fainted
}

/// The owner's view of a side: the active Pokémon in full, and of every
/// roster slot both the summary and the full detail.
pub open spec fn team_view_of(player: PlayerModel) -> TeamModel {
    TeamModel {
        active_pokemon: slot_detail(player.active_pokemon()),
        team_pokemon: Seq::new(player.team.len(), |i: int| slot_summary(player.team[i])),
        team_detail: Seq::new(player.team.len(), |i: int| slot_detail(player.team[i])),
    }
}

/// How many Pokémon of a side are on the bench and have not fainted.
pub open spec fn bench_standing(player: PlayerModel) -> nat {
    player.bench().filter(|slot: Option<PokemonModel>| standing(slot)).len()
}

/// The other side's view of a side: the summary of the active Pokémon, and
/// how many Pokémon on the bench have not fainted.
pub open spec fn opponent_view_of(player: PlayerModel) -> OpponentModel {
    OpponentModel {
        player_name: player.player_name,
        active_pokemon: slot_summary(player.active_pokemon()),
        remaining_pokemon_count: bench_standing(player),
    }
}

/// Without one of its slots a roster has one standing Pokémon fewer if the
/// Pokémon of that slot stands, and as many as before if not.
pub proof fn lemma_standing_without(team: Seq<Option<PokemonModel>>, slot: int)
    requires
        0 <= slot < team.len(),
    ensures
        team.remove(slot).filter(|s: Option<PokemonModel>| standing(s)).len() + (if standing(
            team[slot],
        ) {
            1nat
        } else {
            0nat
        }) == team.filter(|s: Option<PokemonModel>| standing(s)).len(),
{
    let is_standing = |s: Option<PokemonModel>| standing(s);
    let before = team.subrange(0, slot);
    let one = seq![team[slot]];
    let after = team.subrange(slot + 1, team.len() as int);
    assert(team =~= before + one + after);
    assert(team.remove(slot) =~= before + after);
    Seq::filter_distributes_over_add(before + one, after, is_standing);
    Seq::filter_distributes_over_add(before, one, is_standing);
    Seq::filter_distributes_over_add(before, after, is_standing);
    assert(one.filter(is_standing).len() == (if standing(team[slot]) {
        1nat
    } else {
        0nat
    })) by {
        reveal(Seq::filter);
        assert(one.drop_last() =~= Seq::<Option<PokemonModel>>::empty());
        assert(one.drop_last().filter(is_standing) =~= Seq::<Option<PokemonModel>>::empty());
        assert(one.last() == team[slot]);
    }
}

/// The battle as side `player_index` may see it.
pub open spec fn player_view_of(state: BattleModel, player_index: int) -> PlayerViewModel {
    PlayerViewModel {
        game_state: state.game_state,
        turn_number: state.turn_number,
        player_team: team_view_of(state.players[player_index]),
        opponent_public_info: opponent_view_of(state.players[1 - player_index]),
        can_act: can_act(state, player_index),
    }
}

/// The battle as the participant `player_id` may see it, or the
/// authorization error for a stranger.
pub open spec fn player_view_or_error(state: BattleModel, player_id: Seq<char>) -> Result<
    PlayerViewModel,
    ErrorModel,
> {
    match player_index(state, player_id) {
        Some(i) => Ok(player_view_of(state, i as int)),
        None => Err(ErrorModel::PlayerNotAuthorized { player_id }),
    }
}

/// A move of the own active Pokémon, with exact uses left.
#[derive(Debug)]
pub struct MoveView {
    pub move_: String,
    pub pp: u8,
    pub max_pp: u8,
}

impl View for MoveView {
    type V = MoveModel;

    open spec fn view(&self) -> MoveModel {
        MoveModel { move_: self.move_@, pp: self.pp, max_pp: self.max_pp }
    }
}

impl DeepView for MoveView {
    type V = MoveModel;

    open spec fn deep_view(&self) -> MoveModel {
        self@
    }
}

/// The own active Pokémon in full detail.
#[derive(Debug)]
pub struct PokemonDetailView {
    pub name: String,
    pub species: String,
    pub level: u8,
    pub current_hp: u16,
    pub max_hp: u16,
    pub stats: CurrentStats,
    pub moves: Vec<Option<MoveView>>,
    pub status: Option<String>,
}

impl View for PokemonDetailView {
    type V = DetailModel;

    open spec fn view(&self) -> DetailModel {
        DetailModel {
            name: self.name@,
            species: self.species@,
            level: self.level,
            current_hp: self.current_hp,
            max_hp: self.max_hp,
            stats: self.stats,
            moves: self.moves.deep_view(),
            status: self.status.deep_view(),
        }
    }
}

impl DeepView for PokemonDetailView {
    type V = DetailModel;

    open spec fn deep_view(&self) -> DetailModel {
        self@
    }
}

/// The public facts of a Pokémon.
#[derive(Debug)]
pub struct PokemonSummaryView {
    pub name: String,
    pub species: String,
    pub level: u8,
    pub current_hp: u16,
    pub max_hp: u16,
    pub is_fainted: bool,
    pub status: Option<String>,
}

impl View for PokemonSummaryView {
    type V = SummaryModel;

    open spec fn view(&self) -> SummaryModel {
        SummaryModel {
            name: self.name@,
            species: self.species@,
            level: self.level,
            current_hp: self.current_hp,
            max_hp: self.max_hp,
            is_fainted: self.is_fainted,
            status: self.status.deep_view(),
        }
    }
}

impl DeepView for PokemonSummaryView {
    type V = SummaryModel;

    open spec fn deep_view(&self) -> SummaryModel {
        self@
    }
}

/// A player's view of the own team.
#[derive(Debug)]
pub struct TeamView {
    /// The Pokémon that is out, in full detail.
    pub active_pokemon: Option<PokemonDetailView>,
    /// The summary of every roster slot.
    pub team_pokemon: Vec<Option<PokemonSummaryView>>,
    /// The full detail of every roster slot.
    pub team_detail: Vec<Option<PokemonDetailView>>,
}

impl View for TeamView {
    type V = TeamModel;

    open spec fn view(&self) -> TeamModel {
        TeamModel {
            active_pokemon: self.active_pokemon.deep_view(),
            team_pokemon: self.team_pokemon.deep_view(),
            team_detail: self.team_detail.deep_view(),
        }
    }
}

/// A player's view of the other side: the active Pokémon's public facts and
/// a bare count of the Pokémon on the bench that have not fainted.
#[derive(Debug)]
pub struct OpponentView {
    pub player_name: String,
    pub active_pokemon: Option<PokemonSummaryView>,
    pub remaining_pokemon_count: usize,
}

impl View for OpponentView {
    type V = OpponentModel;

    open spec fn view(&self) -> OpponentModel {
        OpponentModel {
            player_name: self.player_name@,
            active_pokemon: self.active_pokemon.deep_view(),
            remaining_pokemon_count: self.remaining_pokemon_count as nat,
        }
    }
}

/// Data structure for battle state from a player's perspective.
#[derive(Debug)]
pub struct PlayerBattleView {
    pub game_state: GameState,
    pub turn_number: u32,
    pub player_team: TeamView,
    pub opponent_public_info: OpponentView,
    pub can_act: bool,
}

impl View for PlayerBattleView {
    type V = PlayerViewModel;

    open spec fn view(&self) -> PlayerViewModel {
        PlayerViewModel {
            game_state: self.game_state,
            turn_number: self.turn_number,
            player_team: self.player_team@,
            opponent_public_info: self.opponent_public_info@,
            can_act: self.can_act,
        }
    }
}

/// The moves of a Pokémon as its owner sees them.
fn move_views(moves: &Vec<Option<MoveInstance>>) -> (r: Vec<Option<MoveView>>)
    ensures
        r.deep_view() == moves.deep_view(),
{
    let mut views: Vec<Option<MoveView>> = Vec::new();
    let mut i: usize = 0;
    while i < moves.len()
        invariant
            i <= moves.len(),
            views.len() == i,
            forall|k: int| 0 <= k < i ==> views[k].deep_view() == moves[k].deep_view(),
        decreases moves.len() - i,
    {
        let slot = match &moves[i] {
            Some(m) => Some(MoveView { move_: m.move_.clone(), pp: m.pp, max_pp: m.max_pp }),
            None => None,
        };
        views.push(slot);
        i += 1;
    }
    assert(views.deep_view() =~= moves.deep_view());
    views
}

/// The full detail of a Pokémon, for its owner.
pub fn pokemon_detail(pokemon: &PokemonInst) -> (r: PokemonDetailView)
    ensures
        r@ == detail_of(pokemon@),
{
    PokemonDetailView {
        name: pokemon.name.clone(),
        species: pokemon.species.clone(),
        level: pokemon.level,
        current_hp: pokemon.current_hp,
        max_hp: pokemon.max_hp,
        stats: pokemon.stats,
        moves: move_views(&pokemon.moves),
        status: clone_optional_string(&pokemon.status),
    }
}

/// The public facts of a Pokémon.
pub fn pokemon_summary(pokemon: &PokemonInst) -> (r: PokemonSummaryView)
    ensures
        r@ == summary_of(pokemon@),
{
    PokemonSummaryView {
        name: pokemon.name.clone(),
        species: pokemon.species.clone(),
        level: pokemon.level,
        current_hp: pokemon.current_hp,
        max_hp: pokemon.max_hp,
        is_fainted: pokemon.fainted,
        status: clone_optional_string(&pokemon.status),
    }
}

/// The owner's view of a side.
pub fn create_player_team_view(player: &BattlePlayer) -> (view: TeamView)
    ensures
        view@ == team_view_of(player@),
{
    let active_pokemon = match player.active_pokemon() {
        Some(pokemon) => Some(pokemon_detail(pokemon)),
        None => None,
    };
    let mut team_pokemon: Vec<Option<PokemonSummaryView>> = Vec::new();
    let mut team_detail: Vec<Option<PokemonDetailView>> = Vec::new();
    let mut i: usize = 0;
    while i < player.team.len()
        invariant
            i <= player.team.len(),
            team_pokemon.len() == i,
            team_detail.len() == i,
            forall|k: int|
                0 <= k < i ==> team_pokemon[k].deep_view() == slot_summary(
                    player.team[k].deep_view(),
                ),
            forall|k: int|
                0 <= k < i ==> team_detail[k].deep_view() == slot_detail(
                    player.team[k].deep_view(),
                ),
        decreases player.team.len() - i,
    {
        let (summary, detail) = match &player.team[i] {
            Some(pokemon) => (Some(pokemon_summary(pokemon)), Some(pokemon_detail(pokemon))),
            None => (None, None),
        };
        team_pokemon.push(summary);
        team_detail.push(detail);
        i += 1;
    }
    assert(team_pokemon.deep_view() =~= team_view_of(player@).team_pokemon);
    assert(team_detail.deep_view() =~= team_view_of(player@).team_detail);
    TeamView { active_pokemon, team_pokemon, team_detail }
}

/// The other side's view of a side.
pub fn create_opponent_view(opponent: &BattlePlayer) -> (view: OpponentView)
    ensures
        view@ == opponent_view_of(opponent@),
        view.remaining_pokemon_count <= opponent.team.len(),
{
    let active_pokemon = match opponent.active_pokemon() {
        Some(pokemon) => Some(pokemon_summary(pokemon)),
        None => None,
    };
    let ghost is_standing = |slot: Option<PokemonModel>| standing(slot);
    let ghost team = opponent.team.deep_view();
    // All Pokémon that stand are counted; the active one is then left out.
    let mut standing_count: usize = 0;
    let mut i: usize = 0;
    while i < opponent.team.len()
        invariant
            i <= opponent.team.len(),
            team == opponent.team.deep_view(),
            is_standing == |slot: Option<PokemonModel>| standing(slot),
            standing_count == team.take(i as int).filter(is_standing).len(),
            standing_count <= i,
        decreases opponent.team.len() - i,
    {
        let counts = match &opponent.team[i] {
            Some(pokemon) => !pokemon.fainted,
            None => false,
        };
        proof {
            reveal(Seq::filter);
            assert(team.take(i + 1).drop_last() =~= team.take(i as int));
            assert(team.take(i + 1).last() == team[i as int]);
            assert(counts == standing(team[i as int]));
        }
        if counts {
            standing_count += 1;
        }
        i += 1;
    }
    assert(team.take(i as int) =~= team);
    let active_stands = match opponent.active_pokemon() {
        Some(pokemon) => !pokemon.fainted,
        None => false,
    };
    proof {
        if opponent.active_pokemon_index < opponent.team.len() {
            lemma_standing_without(team, opponent.active_pokemon_index as int);
        }
    }
    let remaining_pokemon_count = if active_stands {
        standing_count - 1
    } else {
        standing_count
    };
    OpponentView {
        player_name: opponent.player_name.clone(),
        active_pokemon,
        remaining_pokemon_count,
    }
}

/// Get current battle state information for a specific player.
///
/// The own team is shown in full. Of the other side only the active
/// Pokémon's public facts and a count are shown. A participant that plays
/// neither side gets the authorization error.
pub fn get_battle_state_for_player(
    battle_state: &BattleState,
    requesting_player_id: &PlayerId,
) -> (r: Result<PlayerBattleView, ApiError>)
    ensures
        match r {
            Ok(view) => Ok(view@),
            Err(e) => Err(e@),
        } == player_view_or_error(battle_state@, requesting_player_id@),
{
    let player_index = match get_player_index(battle_state, requesting_player_id) {
        Ok(i) => i,
        Err(e) => { return Err(e); },
    };
    let opponent_index = 1 - player_index;
    let player = &battle_state.players[player_index];
    let opponent = &battle_state.players[opponent_index];
    Ok(
        PlayerBattleView {
            game_state: battle_state.game_state,
            turn_number: battle_state.turn_number,
            player_team: create_player_team_view(player),
            opponent_public_info: create_opponent_view(opponent),
            can_act: can_player_act(battle_state, player_index),
        },
    )
}

} // verus!
