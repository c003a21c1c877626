//! What a player may choose from before a battle: the automated opponents
//! and the ready-made teams.

use crate::engine::admission::verdict_model;
use crate::errors::{ApiError, ErrorModel};
use crate::text::join2;
use crate::types::{NpcOpponentInfo, NpcOpponentModel, PrefabTeamInfo, PrefabTeamModel};
use vstd::prelude::*;

verus! {

/// The automated opponents on offer.
pub open spec fn npc_opponents() -> Seq<NpcOpponentModel> {
    seq![
        NpcOpponentModel {
            id: "gym_leader_easy"@,
            name: "Gym Leader Brock"@,
            description: "Rock-type specialist with defensive strategies"@,
            difficulty: "easy"@,
        },
        NpcOpponentModel {
            id: "gym_leader_medium"@,
            name: "Gym Leader Misty"@,
            description: "Water-type master with balanced offense and control"@,
            difficulty: "medium"@,
        },
        NpcOpponentModel {
            id: "gym_leader_hard"@,
            name: "Gym Leader Lt. Surge"@,
            description: "Electric-type powerhouse with aggressive tactics"@,
            difficulty: "hard"@,
        },
    ]
}

/// Get available NPC opponents.
pub fn get_npc_opponents() -> (r: Vec<NpcOpponentInfo>)
    ensures
        r.deep_view() == npc_opponents(),
{
    let mut opponents: Vec<NpcOpponentInfo> = Vec::new();
    opponents.push(
        NpcOpponentInfo {
            id: String::from_str("gym_leader_easy"),
            name: String::from_str("Gym Leader Brock"),
            description: String::from_str("Rock-type specialist with defensive strategies"),
            difficulty: String::from_str("easy"),
        },
    );
    opponents.push(
        NpcOpponentInfo {
            id: String::from_str("gym_leader_medium"),
            name: String::from_str("Gym Leader Misty"),
            description: String::from_str("Water-type master with balanced offense and control"),
            difficulty: String::from_str("medium"),
        },
    );
    opponents.push(
        NpcOpponentInfo {
            id: String::from_str("gym_leader_hard"),
            name: String::from_str("Gym Leader Lt. Surge"),
            description: String::from_str("Electric-type powerhouse with aggressive tactics"),
            difficulty: String::from_str("hard"),
        },
    );
    assert(opponents.deep_view() =~= npc_opponents());
    opponents
}

/// The difficulty of an automated opponent, or the validation error for an
/// identifier that names none.
pub open spec fn difficulty_of(opponent_id: Seq<char>) -> Result<Seq<char>, ErrorModel> {
    if opponent_id == "gym_leader_easy"@ {
        Ok("easy"@)
    } else if opponent_id == "gym_leader_medium"@ {
        Ok("medium"@)
    } else if opponent_id == "gym_leader_hard"@ {
        Ok("hard"@)
    } else {
        Err(ErrorModel::ValidationError { message: "Unknown opponent: "@ + opponent_id })
    }
}

/// The difficulty at which the automated opponent `opponent_id` plays.
pub fn npc_difficulty(opponent_id: &str) -> (r: Result<&'static str, ApiError>)
    ensures
        match r {
            Ok(difficulty) => Ok(difficulty@),
            Err(e) => Err(e@),
        } == difficulty_of(opponent_id@),
{
    let id = String::from_str(opponent_id);
    if id == String::from_str("gym_leader_easy") {
        Ok("easy")
    } else if id == String::from_str("gym_leader_medium") {
        Ok("medium")
    } else if id == String::from_str("gym_leader_hard") {
        Ok("hard")
    } else {
        Err(ApiError::ValidationError { message: join2("Unknown opponent: ", opponent_id) })
    }
}

/// What a battle against an automated opponent starts from: the difficulty
/// to ask the engine's opponent for, or the error that ends the request.
/// A ready-made team that the engine refuses comes first.
pub open spec fn mvp_battle_plan(
    team_verdict: Result<(), Seq<char>>,
    opponent_id: Seq<char>,
) -> Result<Seq<char>, ErrorModel> {
    match team_verdict {
        Err(reason) => Err(ErrorModel::ValidationError { message: reason }),
        Ok(_) => difficulty_of(opponent_id),
    }
}

/// Prepares a battle between a player with a ready-made team and an
/// automated opponent. `team_verdict` is what the engine said when asked for
/// the player's team: its refusal ends the request, before the opponent is
/// looked at. On success the result is the difficulty of the opponent's team.
pub fn plan_mvp_battle(team_verdict: Result<(), String>, opponent_id: &str) -> (r: Result<
    &'static str,
    ApiError,
>)
    ensures
        match r {
            Ok(difficulty) => Ok(difficulty@),
            Err(e) => Err(e@),
        } == mvp_battle_plan(verdict_model(team_verdict), opponent_id@),
{
    match team_verdict {
        Ok(_) => {},
        Err(reason) => { return Err(ApiError::ValidationError { message: reason }); },
    }
    npc_difficulty(opponent_id)
}

/// A ready-made team of the resolution engine: what the list of teams on
/// offer is made from.
#[derive(Debug)]
pub struct PrefabTeam {
    pub id: String,
    pub name: String,
    pub description: String,
    /// The level of each Pokémon of the team.
    pub levels: Vec<u8>,
}

/// The sum of the levels of a team.
pub open spec fn level_sum(levels: Seq<u8>) -> nat
    decreases levels.len(),
{
    if levels.len() == 0 {
        0
    } else {
        level_sum(levels.drop_last()) + levels.last() as nat
    }
}

/// Whether a team has an average level: it holds at least one Pokémon.
pub open spec fn average_defined(levels: Seq<u8>) -> bool {
    levels.len() > 0
}

/// The average level of a team: the sum of the levels by the number of
/// Pokémon, rounded down.
pub open spec fn average_level(levels: Seq<u8>) -> u8
    recommends
        average_defined(levels),
{
    (level_sum(levels) / levels.len()) as u8
}

/// Whether a team has an average level.
pub fn average_is_defined(levels: &Vec<u8>) -> (r: bool)
    ensures
        r == average_defined(levels@),
{
    levels.len() > 0
}

/// The listing of a ready-made team.
pub open spec fn team_info_of(team: PrefabTeam) -> PrefabTeamModel {
    PrefabTeamModel {
        id: team.id@,
        name: team.name@,
        description: team.description@,
        pokemon_count: team.levels@.len() as usize,
        average_level: average_level(team.levels@),
    }
}

/// The listing of one ready-made team.
pub fn prefab_team_info(team: PrefabTeam) -> (info: PrefabTeamInfo)
    requires
        average_defined(team.levels@),
    ensures
        info@ == team_info_of(team),
{
    let mut sum: u128 = 0;
    let mut i: usize = 0;
    while i < team.levels.len()
        invariant
            i <= team.levels.len(),
            sum == level_sum(team.levels@.take(i as int)),
            sum <= 255 * i,
        decreases team.levels.len() - i,
    {
        proof {
            assert(team.levels@.take(i + 1).drop_last() =~= team.levels@.take(i as int));
        }
        sum = sum + team.levels[i] as u128;
        i += 1;
    }
    assert(team.levels@.take(i as int) =~= team.levels@);
    let count = team.levels.len();
    let average = sum / (count as u128);
    assert(average <= 255) by (nonlinear_arith)
        requires
            average == sum / (count as u128),
            sum <= 255 * count,
            count > 0,
    ;
    PrefabTeamInfo {
        id: team.id,
        name: team.name,
        description: team.description,
        pokemon_count: count,
        average_level: average as u8,
    }
}

/// Get available prefab teams for the API: the listing of each team that the
/// resolution engine offers, in order.
pub fn get_available_teams(teams: Vec<PrefabTeam>) -> (r: Vec<PrefabTeamInfo>)
    requires
        forall|k: int| 0 <= k < teams.len() ==> average_defined(#[trigger] teams[k].levels@),
    ensures
        r.deep_view() == Seq::new(teams.len() as nat, |k: int| team_info_of(teams[k])),
{
    let mut infos: Vec<PrefabTeamInfo> = Vec::new();
    let ghost all = teams@;
    let mut teams = teams;
    let mut rest: Vec<PrefabTeam> = Vec::new();
    // The teams are taken from the back, so the listing is filled in
    // reverse and turned round at the end.
    while teams.len() > 0
        invariant
            teams.len() + rest.len() == all.len(),
            teams@ == all.take(teams.len() as int),
            forall|k: int| 0 <= k < rest.len() ==> rest[k] == all[all.len() - 1 - k],
        decreases teams.len(),
    {
        let team = teams.pop().unwrap();
        rest.push(team);
    }
    while rest.len() > 0
        invariant
            infos.len() + rest.len() == all.len(),
            forall|k: int| 0 <= k < all.len() ==> average_defined(#[trigger] all[k].levels@),
            forall|k: int| 0 <= k < rest.len() ==> rest[k] == all[all.len() - 1 - k],
            forall|k: int| 0 <= k < infos.len() ==> infos[k]@ == team_info_of(all[k]),
        decreases rest.len(),
    {
        let team = rest.pop().unwrap();
        infos.push(prefab_team_info(team));
    }
    assert(infos.deep_view() =~= Seq::new(all.len(), |k: int| team_info_of(all[k])));
    infos
}

} // verus!
