//! The creation of a battle: the check of what was asked for, and the
//! building by the engine.

use crate::battle::BattleState;
use crate::engine::admission::verdict_model;
use crate::engine::offers::{mvp_battle_plan, plan_mvp_battle};
use crate::engine::roster::{
    battle_plan, lemma_checked_roster_in_bounds, plan_battle, roster_model, size_allowed,
    team_verdict, validate_team, BattlePlan, EntryLookup, MAX_TEAM_SIZE,
};
use crate::errors::{ApiError, ErrorModel};
use crate::ids::PlayerId;
use crate::resolution::BattleBuilder;
use crate::types::TeamPokemon;
use vstd::prelude::*;

verus! {

/// Whether `lookups` is what `builder` answered when it was asked about
/// the entries of a roster, one after the other. A roster whose size is not
/// allowed is not asked about.
pub open spec fn looked_up<B: BattleBuilder>(
    builder: &B,
    team: Seq<TeamPokemon>,
    lookups: Seq<EntryLookup>,
) -> bool {
    size_allowed(roster_model(team)) ==> {
        &&& lookups.len() == team.len()
        &&& forall|i: int|
            0 <= i < team.len() ==> call_ensures(
                B::lookup,
                (builder, &team[i]),
                #[trigger] lookups[i],
            )
    }
}

/// Asks the builder about each entry of a roster whose size is allowed.
fn look_up<B: BattleBuilder>(builder: &B, team: &Vec<TeamPokemon>) -> (lookups: Vec<EntryLookup>)
    ensures
        looked_up(builder, team@, lookups@),
{
    let mut lookups: Vec<EntryLookup> = Vec::new();
    if team.len() == 0 || team.len() > MAX_TEAM_SIZE {
        return lookups;
    }
    let mut i: usize = 0;
    while i < team.len()
        invariant
            i <= team.len(),
            lookups.len() == i,
            forall|k: int|
                0 <= k < i ==> call_ensures(B::lookup, (builder, &team[k]), #[trigger] lookups[k]),
        decreases team.len() - i,
    {
        let lookup = builder.lookup(&team[i]);
        lookups.push(lookup);
        i += 1;
    }
    lookups
}

/// What a builder was asked, and what it answered, in the course of the
/// creation of a battle from two rosters.
pub struct BuildTrace {
    pub player1_known: Seq<EntryLookup>,
    pub player2_known: Seq<EntryLookup>,
    pub plan: BattlePlan,
    pub built: BattleState,
}

/// Whether `trace` is what `builder` was asked and what it answered when a
/// battle was created from two rosters: it was asked about the entries of
/// the first roster, about those of the second if the first had passed,
/// and, if both had passed, to build the battle of the plan.
#[verifier::opaque]
pub open spec fn build_asked<B: BattleBuilder>(
    builder: &B,
    battle_id: Seq<char>,
    player1_id: Seq<char>,
    player1_team: &Vec<TeamPokemon>,
    player2_id: Seq<char>,
    player2_team: &Vec<TeamPokemon>,
    trace: BuildTrace,
) -> bool {
    &&& looked_up(builder, player1_team@, trace.player1_known)
    &&& team_verdict(roster_model(player1_team@), trace.player1_known) is Ok ==> looked_up(
        builder,
        player2_team@,
        trace.player2_known,
    )
    &&& battle_plan(
        battle_id,
        player1_id,
        roster_model(player1_team@),
        trace.player1_known,
        player2_id,
        roster_model(player2_team@),
        trace.player2_known,
    ) matches Ok(plan) ==> trace.plan@ == plan && call_ensures(
        B::build_battle,
        (builder, &trace.plan, player1_team, player2_team),
        trace.built,
    )
}

/// What the creation of a battle from two rosters comes to, given what the
/// builder answered: the error of the first roster that fails its check,
/// or the battle that the builder built.
pub open spec fn creation_result(
    battle_id: Seq<char>,
    player1_id: Seq<char>,
    player1_team: Seq<TeamPokemon>,
    player2_id: Seq<char>,
    player2_team: Seq<TeamPokemon>,
    trace: BuildTrace,
) -> Result<BattleState, ErrorModel> {
    match battle_plan(
        battle_id,
        player1_id,
        roster_model(player1_team),
        trace.player1_known,
        player2_id,
        roster_model(player2_team),
        trace.player2_known,
    ) {
        Err(e) => Err(e),
        Ok(_) => Ok(trace.built),
    }
}

/// A result whose error is taken by its view.
pub open spec fn built_view(r: Result<BattleState, ApiError>) -> Result<BattleState, ErrorModel> {
    match r {
        Ok(state) => Ok(state),
        Err(e) => Err(e@),
    }
}

/// Create a new battle state from team configurations.
///
/// Each roster must hold one to six Pokémon, each of a level from 1 to 100,
/// of a species that the engine knows, and with one to four moves that the
/// engine knows. The first roster is checked before the second, and the
/// first failing check gives the validation error. The engine builds the
/// battle of two rosters that pass.
pub fn create_battle<B: BattleBuilder>(
    builder: &B,
    battle_id: String,
    player1_id: PlayerId,
    player1_team: &Vec<TeamPokemon>,
    player2_id: PlayerId,
    player2_team: &Vec<TeamPokemon>,
) -> (r: Result<BattleState, ApiError>)
    ensures
        exists|trace: BuildTrace| #[trigger]
            build_asked(
                builder,
                battle_id@,
                player1_id@,
                player1_team,
                player2_id@,
                player2_team,
                trace,
            ) && built_view(r) == creation_result(
                battle_id@,
                player1_id@,
                player1_team@,
                player2_id@,
                player2_team@,
                trace,
            ),
        r matches Err(e) ==> e@ is ValidationError,
{
    let ghost id = battle_id@;
    let ghost first = player1_id@;
    let ghost second = player2_id@;
    let player1_known = look_up(builder, player1_team);
    let ghost known1 = player1_known@;
    // The second roster is looked at only once the first has passed.
    let passed = match validate_team(player1_team.as_slice(), player1_known.as_slice()) {
        Ok(_) => true,
        Err(_) => false,
    };
    let player2_known = if passed {
        look_up(builder, player2_team)
    } else {
        Vec::new()
    };
    let ghost known2 = player2_known@;
    match plan_battle(
        battle_id,
        player1_id,
        player1_team.as_slice(),
        player1_known.as_slice(),
        player2_id,
        player2_team.as_slice(),
        player2_known.as_slice(),
    ) {
        Err(e) => {
            let r = Err(e);
            proof {
                let trace = BuildTrace {
                    player1_known: known1,
                    player2_known: known2,
                    plan: arbitrary(),
                    built: arbitrary(),
                };
                reveal(build_asked);
                assert(build_asked(builder, id, first, player1_team, second, player2_team, trace));
            }
            r
        },
        Ok(plan) => {
            proof {
                lemma_checked_roster_in_bounds(roster_model(player1_team@), known1);
                lemma_checked_roster_in_bounds(roster_model(player2_team@), known2);
            }
            let built = builder.build_battle(&plan, player1_team, player2_team);
            let r = Ok(built);
            proof {
                let trace = BuildTrace {
                    player1_known: known1,
                    player2_known: known2,
                    plan,
                    built,
                };
                reveal(build_asked);
                assert(build_asked(builder, id, first, player1_team, second, player2_team, trace));
            }
            r
        },
    }
}

/// What a builder was asked, and what it answered, in the course of the
/// creation of a battle against an automated opponent.
pub struct MvpTrace {
    pub team_verdict: Result<(), String>,
    pub built: Result<BattleState, String>,
}

/// The identifier of the player in a battle against an automated opponent.
pub const MVP_PLAYER_ID: &'static str = "player_1";

/// The identifier of the automated opponent in such a battle.
pub const MVP_OPPONENT_ID: &'static str = "npc";

/// Whether `trace` is what `builder` was asked and what it answered when a
/// battle against an automated opponent was created: it was asked for the
/// player's ready-made team and, if it has that team and the opponent is
/// one of those on offer, to build the battle of the player `player_1` at
/// the opponent's difficulty.
#[verifier::opaque]
pub open spec fn mvp_asked<B: BattleBuilder>(
    builder: &B,
    battle_id: String,
    player_name: String,
    team_id: &str,
    opponent_id: &str,
    trace: MvpTrace,
) -> bool {
    &&& call_ensures(B::check_prefab_team, (builder, team_id), trace.team_verdict)
    &&& mvp_battle_plan(verdict_model(trace.team_verdict), opponent_id@) matches Ok(wanted)
        ==> exists|player_id: &str, difficulty: &str| #[trigger]
        call_ensures(
            B::build_mvp_battle,
            (builder, &battle_id, player_id, &player_name, team_id, difficulty),
            trace.built,
        ) && player_id@ == MVP_PLAYER_ID@ && difficulty@ == wanted
}

/// What the creation of a battle against an automated opponent comes to,
/// given what the builder answered: the validation error of a team that
/// the engine does not have, of an opponent that is not on offer, or of a
/// battle that the engine cannot build, or else the battle that it built.
pub open spec fn mvp_creation_result(opponent_id: Seq<char>, trace: MvpTrace) -> Result<
    BattleState,
    ErrorModel,
> {
    match mvp_battle_plan(verdict_model(trace.team_verdict), opponent_id) {
        Err(e) => Err(e),
        Ok(_) => match trace.built {
            Ok(state) => Ok(state),
            Err(reason) => Err(ErrorModel::ValidationError { message: reason@ }),
        },
    }
}

/// Create a battle between player (using prefab team) and NPC.
pub fn create_mvp_battle<B: BattleBuilder>(
    builder: &B,
    battle_id: String,
    player_name: String,
    team_id: &str,
    opponent_id: &str,
) -> (r: Result<BattleState, ApiError>)
    ensures
        exists|trace: MvpTrace| #[trigger]
            mvp_asked(builder, battle_id, player_name, team_id, opponent_id, trace) && built_view(
                r,
            ) == mvp_creation_result(opponent_id@, trace),
{
    let team_verdict = builder.check_prefab_team(team_id);
    let ghost verdict = team_verdict;
    let difficulty = match plan_mvp_battle(team_verdict, opponent_id) {
        Ok(difficulty) => difficulty,
        Err(e) => {
            let r = Err(e);
            proof {
                let trace = MvpTrace { team_verdict: verdict, built: arbitrary() };
                reveal(mvp_asked);
                assert(mvp_asked(builder, battle_id, player_name, team_id, opponent_id, trace));
            }
            return r;
        },
    };
    let built = builder.build_mvp_battle(
        &battle_id,
        MVP_PLAYER_ID,
        &player_name,
        team_id,
        difficulty,
    );
    let ghost answer = built;
    let r = match built {
        Ok(state) => Ok(state),
        Err(reason) => Err(ApiError::ValidationError { message: reason }),
    };
    proof {
        let trace = MvpTrace { team_verdict: verdict, built: answer };
        reveal(mvp_asked);
        assert(call_ensures(
            B::build_mvp_battle,
            (builder, &battle_id, MVP_PLAYER_ID, &player_name, team_id, difficulty),
            trace.built,
        ));
        assert(mvp_asked(builder, battle_id, player_name, team_id, opponent_id, trace));
    }
    r
}

} // verus!
