//! Who may submit what, and when: the check of a submission against the
//! phase of the battle, and the filling of the pending-action slots.

use crate::battle::{BattleModel, BattleState, GameState, PlayerAction};
use crate::errors::{outcome, ApiError, ErrorModel};
use crate::ids::PlayerId;
use vstd::prelude::*;

verus! {

/// The side that a participant plays: 0 or 1, the first side whose
/// identifier matches, or nothing for a stranger.
pub open spec fn player_index(state: BattleModel, player_id: Seq<char>) -> Option<usize> {
    if state.players[0].player_id == player_id {
        Some(0)
    } else if state.players[1].player_id == player_id {
        Some(1)
    } else {
        None
    }
}

/// The side that a participant plays, or the authorization error for a
/// participant that plays neither.
pub open spec fn player_index_or_error(state: BattleModel, player_id: Seq<char>) -> Result<
    usize,
    ErrorModel,
> {
    match player_index(state, player_id) {
        Some(i) => Ok(i),
        None => Err(ErrorModel::PlayerNotAuthorized { player_id }),
    }
}

/// Finds the side that `player_id` plays in the battle.
pub fn get_player_index(battle_state: &BattleState, player_id: &PlayerId) -> (r: Result<
    usize,
    ApiError,
>)
    ensures
        outcome(r) == player_index_or_error(battle_state@, player_id@),
{
    if battle_state.players[0].player_id == player_id.0 {
        Ok(0)
    } else if battle_state.players[1].player_id == player_id.0 {
        Ok(1)
    } else {
        Err(ApiError::player_not_authorized(player_id))
    }
}

/// Validate that a player is authorized to act on behalf of this battle.
pub fn validate_player_authorization(battle_state: &BattleState, player_id: &PlayerId) -> (r:
    Result<usize, ApiError>)
    ensures
        outcome(r) == player_index_or_error(battle_state@, player_id@),
{
    get_player_index(battle_state, player_id)
}

/// The rejection of an action with a reason.
pub open spec fn rejected(reason: Seq<char>) -> Result<(), ErrorModel> {
    Err(ErrorModel::InvalidAction { message: reason })
}

/// Whether the phase admits `action` from side `player_index`, and the error
/// if it does not.
///
/// While both sides owe an action, a side may submit once. While one side
/// owes a replacement, only that side may submit, and only a switch. While
/// both owe one, either may submit a switch. A battle that has ended admits
/// nothing.
pub open spec fn action_context_verdict(
    state: BattleModel,
    player_index: int,
    action: PlayerAction,
) -> Result<(), ErrorModel> {
    match state.game_state {
        GameState::WaitingForActions => {
            if state.action_queue[player_index] is Some {
                rejected("Player has already submitted an action for this turn"@)
            } else {
                Ok(())
            }
        },
        GameState::WaitingForPlayer1Replacement => {
            if player_index != 0 {
                rejected("Only Player 1 can act during replacement phase"@)
            } else if !action.is_switch_spec() {
                rejected("Must switch Pokemon during replacement phase"@)
            } else {
                Ok(())
            }
        },
        GameState::WaitingForPlayer2Replacement => {
            if player_index != 1 {
                rejected("Only Player 2 can act during replacement phase"@)
            } else if !action.is_switch_spec() {
                rejected("Must switch Pokemon during replacement phase"@)
            } else {
                Ok(())
            }
        },
        GameState::WaitingForBothReplacements => {
            if !action.is_switch_spec() {
                rejected("Must switch Pokemon during replacement phase"@)
            } else {
                Ok(())
            }
        },
        _ => Err(ErrorModel::InvalidBattleState { state: state.game_state.name_spec() }),
    }
}

/// Decides whether `action` from side `player_index` is admissible in the
/// battle's phase. This comes before the resolution engine's own check of
/// the action's details.
pub fn validate_action_context(
    battle_state: &BattleState,
    player_index: usize,
    action: &PlayerAction,
) -> (r: Result<(), ApiError>)
    requires
        player_index < 2,
    ensures
        outcome(r) == action_context_verdict(battle_state@, player_index as int, *action),
{
    match battle_state.game_state {
        GameState::WaitingForActions => {
            if battle_state.action_queue[player_index].is_some() {
                return Err(
                    ApiError::invalid_action(
                        "Player has already submitted an action for this turn",
                    ),
                );
            }
        },
        GameState::WaitingForPlayer1Replacement => {
            if player_index != 0 {
                return Err(
                    ApiError::invalid_action("Only Player 1 can act during replacement phase"),
                );
            }
            if !action.is_switch() {
                return Err(
                    ApiError::invalid_action("Must switch Pokemon during replacement phase"),
                );
            }
        },
        GameState::WaitingForPlayer2Replacement => {
            if player_index != 1 {
                return Err(
                    ApiError::invalid_action("Only Player 2 can act during replacement phase"),
                );
            }
            if !action.is_switch() {
                return Err(
                    ApiError::invalid_action("Must switch Pokemon during replacement phase"),
                );
            }
        },
        GameState::WaitingForBothReplacements => {
            if !action.is_switch() {
                return Err(
                    ApiError::invalid_action("Must switch Pokemon during replacement phase"),
                );
            }
        },
        _ => {
            return Err(ApiError::InvalidBattleState { state: battle_state.game_state.name() });
        },
    }
    Ok(())
}

/// Whether side `player_index` may submit an action in the battle's phase.
pub open spec fn can_act(state: BattleModel, player_index: int) -> bool {
    match state.game_state {
        GameState::WaitingForActions => state.action_queue[player_index] is None,
        GameState::WaitingForPlayer1Replacement => player_index == 0,
        GameState::WaitingForPlayer2Replacement => player_index == 1,
        GameState::WaitingForBothReplacements => true,
        _ => false,
    }
}

/// Whether side `player_index` may submit an action in the battle's phase.
pub fn can_player_act(battle_state: &BattleState, player_index: usize) -> (r: bool)
    requires
        player_index < 2,
    ensures
        r == can_act(battle_state@, player_index as int),
{
    match battle_state.game_state {
        GameState::WaitingForActions => battle_state.action_queue[player_index].is_none(),
        GameState::WaitingForPlayer1Replacement => player_index == 0,
        GameState::WaitingForPlayer2Replacement => player_index == 1,
        GameState::WaitingForBothReplacements => true,
        _ => false,
    }
}

/// The battle with `action` placed in the pending-action slot of side
/// `player_index`, and nothing else changed.
pub open spec fn with_action(
    state: BattleModel,
    player_index: int,
    action: PlayerAction,
) -> BattleModel {
    BattleModel { action_queue: state.action_queue.update(player_index, Some(action)), ..state }
}

/// What becomes of a submission: the battle with the action in the
/// submitting side's slot, or the reason why the action is not admitted.
///
/// A participant that plays neither side is turned away first. Then the
/// phase decides ([`action_context_verdict`]). Last comes the resolution
/// engine's own verdict on the action's details, whose refusal is handed on
/// with its reason.
pub open spec fn submission_outcome(
    state: BattleModel,
    player_id: Seq<char>,
    action: PlayerAction,
    engine_verdict: Result<(), Seq<char>>,
) -> Result<BattleModel, ErrorModel> {
    match player_index(state, player_id) {
        None => Err(ErrorModel::PlayerNotAuthorized { player_id }),
        Some(i) => match action_context_verdict(state, i as int, action) {
            Err(e) => Err(e),
            Ok(_) => match engine_verdict {
                Err(reason) => Err(ErrorModel::InvalidAction { message: reason }),
                Ok(_) => Ok(with_action(state, i as int, action)),
            },
        },
    }
}

/// The engine's verdict on an action, its reason taken by its view.
pub open spec fn verdict_model(verdict: Result<(), String>) -> Result<(), Seq<char>> {
    match verdict {
        Ok(_) => Ok(()),
        Err(reason) => Err(reason@),
    }
}

/// Admits an action and places it in the submitting side's pending-action
/// slot. `engine_verdict` is what the resolution engine's own legality
/// check says of the action for that side; it is consulted only when the
/// phase admits the action. A rejected submission leaves no trace.
pub fn admit_action(
    battle_state: BattleState,
    player_id: &PlayerId,
    action: PlayerAction,
    engine_verdict: Result<(), String>,
) -> (r: Result<BattleState, ApiError>)
    ensures
        match r {
            Ok(state) => Ok(state@),
            Err(e) => Err(e@),
        } == submission_outcome(battle_state@, player_id@, action, verdict_model(engine_verdict)),
{
    let player_index = match get_player_index(&battle_state, player_id) {
        Ok(i) => i,
        Err(e) => { return Err(e); },
    };
    match validate_action_context(&battle_state, player_index, &action) {
        Ok(_) => {},
        Err(e) => { return Err(e); },
    }
    match engine_verdict {
        Ok(_) => {},
        Err(reason) => { return Err(ApiError::InvalidAction { message: reason }); },
    }
    let mut battle_state = battle_state;
    let ghost before = battle_state@;
    battle_state.action_queue[player_index] = Some(action);
    assert(battle_state@.players =~= before.players);
    Ok(battle_state)
}

/// The pending-action slots after the actions of the automated sides have
/// been placed, each in the slot of its side, in the order given.
pub open spec fn queue_with(
    queue: Seq<Option<PlayerAction>>,
    npc_actions: Seq<(usize, PlayerAction)>,
) -> Seq<Option<PlayerAction>>
    decreases npc_actions.len(),
{
    if npc_actions.len() == 0 {
        queue
    } else {
        let (side, action) = npc_actions.last();
        queue_with(queue, npc_actions.drop_last()).update(side as int, Some(action))
    }
}

/// Places the actions that the automated sides have decided on in their
/// pending-action slots. Nothing but the slots changes.
pub fn apply_npc_actions(battle_state: &mut BattleState, npc_actions: &Vec<(usize, PlayerAction)>)
    requires
        forall|k: int| 0 <= k < npc_actions.len() ==> npc_actions[k].0 < 2,
    ensures
        final(battle_state)@ == (BattleModel {
            action_queue: queue_with(old(battle_state)@.action_queue, npc_actions@),
            ..old(battle_state)@
        }),
{
    let ghost before = battle_state@;
    let mut i: usize = 0;
    while i < npc_actions.len()
        invariant
            i <= npc_actions.len(),
            forall|k: int| 0 <= k < npc_actions.len() ==> npc_actions[k].0 < 2,
            battle_state@ == (BattleModel {
                action_queue: queue_with(before.action_queue, npc_actions@.take(i as int)),
                ..before
            }),
        decreases npc_actions.len() - i,
    {
        let ghost current = battle_state@;
        let (side, action) = npc_actions[i];
        battle_state.action_queue[side] = Some(action);
        proof {
            assert(npc_actions@.take(i + 1).drop_last() =~= npc_actions@.take(i as int));
            assert(npc_actions@.take(i + 1).last() == npc_actions@[i as int]);
            assert(battle_state@.players =~= current.players);
        }
        i += 1;
    }
    assert(npc_actions@.take(i as int) =~= npc_actions@);
}

} // verus!
