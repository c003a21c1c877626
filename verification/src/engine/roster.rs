//! The check of the rosters of a new battle, before the resolution engine
//! builds the teams.

use crate::errors::{outcome, ApiError, ErrorModel};
use crate::ids::PlayerId;
use crate::text::{decimal, decimal_string, join2};
use crate::types::TeamPokemon;
use vstd::prelude::*;

verus! {

/// The largest roster that a side may bring.
pub const MAX_TEAM_SIZE: usize = 6;

/// The highest level that a Pokémon may have.
pub const MAX_LEVEL: u8 = 100;

/// The largest number of moves that a Pokémon may know.
pub const MAX_MOVES: usize = 4;

/// A roster entry of a request, as a mathematical value: what the check of a
/// roster reads.
pub struct EntryModel {
    pub species: Seq<char>,
    pub level: u8,
    pub move_count: nat,
}

/// What the resolution engine knows of a roster entry.
#[derive(Debug, Clone, Copy, PartialEq, Eq, Structural)]
pub struct EntryLookup {
    /// The engine has data for the entry's species.
    pub species_known: bool,
    /// The engine knows every move of the entry.
    pub moves_known: bool,
}

/// The roster of a request, as a sequence of [`EntryModel`] values.
pub open spec fn roster_model(team: Seq<TeamPokemon>) -> Seq<EntryModel> {
    Seq::new(
        team.len(),
        |i: int|
            EntryModel {
                species: team[i].species@,
                level: team[i].level,
                move_count: team[i].moves@.len(),
            },
    )
}

/// The validation error with a message.
pub open spec fn invalid(message: Seq<char>) -> Result<(), ErrorModel> {
    Err(ErrorModel::ValidationError { message })
}

/// The check of one roster entry: the level must lie in 1..=100, the species
/// must be known to the resolution engine, the Pokémon must know between
/// one and four moves, and the engine must know each of them. The first
/// failing check gives the error.
pub open spec fn entry_verdict(entry: EntryModel, lookup: EntryLookup) -> Result<(), ErrorModel> {
    if entry.level == 0 || entry.level > MAX_LEVEL {
        invalid("Invalid level "@ + decimal(entry.level as nat) + " for "@ + entry.species)
    } else if !lookup.species_known {
        invalid("Species data not found for "@ + entry.species)
    } else if entry.move_count == 0 || entry.move_count > MAX_MOVES {
        invalid("Pokemon must have 1-4 moves"@)
    } else if !lookup.moves_known {
        invalid("Move data not found for "@ + entry.species)
    } else {
        Ok(())
    }
}

/// What the engine knows of entry `i`. An entry without an answer counts as
/// unknown.
pub open spec fn lookup_at(lookups: Seq<EntryLookup>, i: int) -> EntryLookup {
    if 0 <= i < lookups.len() {
        lookups[i]
    } else {
        EntryLookup { species_known: false, moves_known: false }
    }
}

/// The verdict on the first `n` entries of a roster: that of the first entry
/// that fails, if any.
pub open spec fn entries_verdict(
    team: Seq<EntryModel>,
    lookups: Seq<EntryLookup>,
    n: int,
) -> Result<(), ErrorModel>
    decreases n,
{
    if n <= 0 {
        Ok(())
    } else {
        match entries_verdict(team, lookups, n - 1) {
            Err(e) => Err(e),
            Ok(_) => entry_verdict(team[n - 1], lookup_at(lookups, n - 1)),
        }
    }
}

/// The check of a roster: it must hold between one and six Pokémon, and each
/// entry must pass [`entry_verdict`].
pub open spec fn team_verdict(team: Seq<EntryModel>, lookups: Seq<EntryLookup>) -> Result<
    (),
    ErrorModel,
> {
    if team.len() == 0 {
        invalid("Team cannot be empty"@)
    } else if team.len() > MAX_TEAM_SIZE {
        invalid("Team cannot have more than 6 Pokemon"@)
    } else {
        entries_verdict(team, lookups, team.len() as int)
    }
}

/// Checks one roster entry against what the resolution engine knows of it.
pub fn validate_team_pokemon(team_pokemon: &TeamPokemon, lookup: EntryLookup) -> (r: Result<
    (),
    ApiError,
>)
    ensures
        outcome(r) == entry_verdict(
            EntryModel {
                species: team_pokemon.species@,
                level: team_pokemon.level,
                move_count: team_pokemon.moves@.len(),
            },
            lookup,
        ),
{
    if team_pokemon.level == 0 || team_pokemon.level > MAX_LEVEL {
        let level = decimal_string(team_pokemon.level as u64);
        let message = String::from_str("Invalid level ").concat(level.as_str()).concat(
            " for ",
        ).concat(team_pokemon.species.as_str());
        return Err(ApiError::ValidationError { message });
    }
    if !lookup.species_known {
        let message = join2("Species data not found for ", team_pokemon.species.as_str());
        return Err(ApiError::ValidationError { message });
    }
    if team_pokemon.moves.len() == 0 || team_pokemon.moves.len() > MAX_MOVES {
        return Err(ApiError::validation_error("Pokemon must have 1-4 moves"));
    }
    if !lookup.moves_known {
        let message = join2("Move data not found for ", team_pokemon.species.as_str());
        return Err(ApiError::ValidationError { message });
    }
    Ok(())
}

/// Checks the roster of a request before the resolution engine builds the
/// team. `lookups[i]` is what the engine knows of entry `i`.
pub fn validate_team(team_config: &[TeamPokemon], lookups: &[EntryLookup]) -> (r: Result<
    (),
    ApiError,
>)
    ensures
        outcome(r) == team_verdict(roster_model(team_config@), lookups@),
        r matches Err(e) ==> e@ is ValidationError,
{
    if team_config.len() == 0 {
        return Err(ApiError::validation_error("Team cannot be empty"));
    }
    if team_config.len() > MAX_TEAM_SIZE {
        return Err(ApiError::validation_error("Team cannot have more than 6 Pokemon"));
    }
    let ghost team = roster_model(team_config@);
    let mut i: usize = 0;
    while i < team_config.len()
        invariant
            i <= team_config.len(),
            0 < team_config.len() <= MAX_TEAM_SIZE,
            team == roster_model(team_config@),
            entries_verdict(team, lookups@, i as int) is Ok,
        decreases team_config.len() - i,
    {
        let lookup = if i < lookups.len() {
            lookups[i]
        } else {
            EntryLookup { species_known: false, moves_known: false }
        };
        match validate_team_pokemon(&team_config[i], lookup) {
            Ok(_) => {},
            Err(e) => {
                proof {
                    assert(lookup == lookup_at(lookups@, i as int));
                    assert(entries_verdict(team, lookups@, i + 1) == entry_verdict(
                        team[i as int],
                        lookup,
                    ));
                    lemma_first_failure(team, lookups@, i as int, team.len() as int);
                }
                return Err(e);
            },
        }
        i += 1;
    }
    Ok(())
}

/// Once an entry has failed, later entries do not change the verdict.
proof fn lemma_first_failure(team: Seq<EntryModel>, lookups: Seq<EntryLookup>, i: int, n: int)
    requires
        0 <= i < n,
        entries_verdict(team, lookups, i + 1) is Err,
    ensures
        entries_verdict(team, lookups, n) == entries_verdict(team, lookups, i + 1),
    decreases n - i,
{
    if n > i + 1 {
        lemma_first_failure(team, lookups, i, n - 1);
    }
}

/// What the engine is asked to build once both rosters have passed: the two
/// sides with their display names.
#[derive(Debug)]
pub struct BattlePlan {
    pub battle_id: String,
    pub player1_id: String,
    pub player1_name: String,
    pub player2_id: String,
    pub player2_name: String,
}

/// A [`BattlePlan`] as a mathematical value.
pub struct PlanModel {
    pub battle_id: Seq<char>,
    pub player1_id: Seq<char>,
    pub player1_name: Seq<char>,
    pub player2_id: Seq<char>,
    pub player2_name: Seq<char>,
}

impl View for BattlePlan {
    type V = PlanModel;

    open spec fn view(&self) -> PlanModel {
        PlanModel {
            battle_id: self.battle_id@,
            player1_id: self.player1_id@,
            player1_name: self.player1_name@,
            player2_id: self.player2_id@,
            player2_name: self.player2_name@,
        }
    }
}

/// The plan of a battle between two rosters, or the error of the first
/// roster that fails its check, the first side's before the second's.
pub open spec fn battle_plan(
    battle_id: Seq<char>,
    player1_id: Seq<char>,
    player1_team: Seq<EntryModel>,
    player1_known: Seq<EntryLookup>,
    player2_id: Seq<char>,
    player2_team: Seq<EntryModel>,
    player2_known: Seq<EntryLookup>,
) -> Result<PlanModel, ErrorModel> {
    match team_verdict(player1_team, player1_known) {
        Err(e) => Err(e),
        Ok(_) => match team_verdict(player2_team, player2_known) {
            Err(e) => Err(e),
            Ok(_) => Ok(
                PlanModel {
                    battle_id,
                    player1_id,
                    player1_name: "Player "@ + player1_id,
                    player2_id,
                    player2_name: "Player "@ + player2_id,
                },
            ),
        },
    }
}

/// Checks the two rosters of a new battle and names the two sides. The
/// resolution engine builds the battle from the plan.
pub fn plan_battle(
    battle_id: String,
    player1_id: PlayerId,
    player1_team: &[TeamPokemon],
    player1_known: &[EntryLookup],
    player2_id: PlayerId,
    player2_team: &[TeamPokemon],
    player2_known: &[EntryLookup],
) -> (r: Result<BattlePlan, ApiError>)
    ensures
        match r {
            Ok(plan) => Ok(plan@),
            Err(e) => Err(e@),
        } == battle_plan(
            battle_id@,
            player1_id@,
            roster_model(player1_team@),
            player1_known@,
            player2_id@,
            roster_model(player2_team@),
            player2_known@,
        ),
        r matches Err(e) ==> e@ is ValidationError,
{
    match validate_team(player1_team, player1_known) {
        Ok(_) => {},
        Err(e) => { return Err(e); },
    }
    match validate_team(player2_team, player2_known) {
        Ok(_) => {},
        Err(e) => { return Err(e); },
    }
    let player1_name = join2("Player ", player1_id.0.as_str());
    let player2_name = join2("Player ", player2_id.0.as_str());
    Ok(
        BattlePlan {
            battle_id,
            player1_id: player1_id.0,
            player1_name,
            player2_id: player2_id.0,
            player2_name,
        },
    )
}

/// Whether a roster is within the bounds that can be checked without the
/// engine: one to six entries, each of a level from 1 to 100 and with one
/// to four moves.
pub open spec fn roster_in_bounds(team: Seq<EntryModel>) -> bool {
    &&& 0 < team.len() <= MAX_TEAM_SIZE
    &&& forall|i: int|
        0 <= i < team.len() ==> {
            &&& 0 < (#[trigger] team[i]).level <= MAX_LEVEL
            &&& 0 < team[i].move_count <= MAX_MOVES
        }
}

/// Whether a roster has a number of entries that is allowed.
pub open spec fn size_allowed(team: Seq<EntryModel>) -> bool {
    0 < team.len() <= MAX_TEAM_SIZE
}

/// A roster that passes its check is within bounds.
pub proof fn lemma_checked_roster_in_bounds(team: Seq<EntryModel>, lookups: Seq<EntryLookup>)
    requires
        team_verdict(team, lookups) is Ok,
    ensures
        roster_in_bounds(team),
{
    lemma_entries_in_bounds(team, lookups, team.len() as int);
}

/// The entries that have passed their check are within bounds.
proof fn lemma_entries_in_bounds(team: Seq<EntryModel>, lookups: Seq<EntryLookup>, n: int)
    requires
        0 <= n <= team.len(),
        entries_verdict(team, lookups, n) is Ok,
    ensures
        forall|i: int|
            0 <= i < n ==> {
                &&& 0 < (#[trigger] team[i]).level <= MAX_LEVEL
                &&& 0 < team[i].move_count <= MAX_MOVES
            },
    decreases n,
{
    if n > 0 {
        lemma_entries_in_bounds(team, lookups, n - 1);
    }
}

} // verus!
