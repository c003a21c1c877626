use pokemon_adventure_api::battle::{
    BattlePlayer, BattleState, CurrentStats, GameState, MoveInstance, PlayerAction, PokemonInst,
};
use pokemon_adventure_api::engine::{
    admit_action, apply_npc_actions, can_player_act, get_player_index, validate_action_context,
    validate_player_authorization,
};
use pokemon_adventure_api::{ApiError, PlayerId};

fn pokemon(name: &str, current_hp: u16) -> PokemonInst {
    PokemonInst {
        name: name.to_string(),
        species: name.to_string(),
        level: 50,
        current_hp,
        max_hp: 120,
        stats: CurrentStats { attack: 80, defense: 70, sp_attack: 90, sp_defense: 85, speed: 60 },
        moves: vec![
            Some(MoveInstance { move_: "Tackle".to_string(), pp: 30, max_pp: 35 }),
            None,
        ],
        status: None,
        fainted: current_hp == 0,
    }
}

fn player(id: &str, name: &str) -> BattlePlayer {
    BattlePlayer {
        player_id: id.to_string(),
        player_name: name.to_string(),
        team: vec![Some(pokemon("Venusaur", 120)), Some(pokemon("Pikachu", 60)), None],
        active_pokemon_index: 0,
    }
}

fn battle(game_state: GameState) -> BattleState {
    BattleState {
        battle_id: "battle".to_string(),
        players: [player("alice", "Alice"), player("bob", "Bob")],
        turn_number: 4,
        game_state,
        action_queue: [None, None],
        engine_data: "{}".to_string(),
    }
}

const MOVE: PlayerAction = PlayerAction::UseMove { move_index: 0 };
const SWITCH: PlayerAction = PlayerAction::SwitchPokemon { team_index: 1 };

fn invalid_action_message(r: Result<(), ApiError>) -> String {
    match r {
        Err(ApiError::InvalidAction { message }) => message,
        other => panic!("expected InvalidAction, got {:?}", other),
    }
}

#[test]
fn player_index_is_the_side_of_the_participant() {
    let state = battle(GameState::WaitingForActions);
    assert_eq!(get_player_index(&state, &PlayerId("alice".to_string())).unwrap(), 0);
    assert_eq!(get_player_index(&state, &PlayerId("bob".to_string())).unwrap(), 1);
    assert_eq!(validate_player_authorization(&state, &PlayerId("bob".to_string())).unwrap(), 1);
}

#[test]
fn stranger_is_not_authorized() {
    let state = battle(GameState::WaitingForActions);
    match get_player_index(&state, &PlayerId("mallory".to_string())) {
        Err(ApiError::PlayerNotAuthorized { player_id }) => assert_eq!(player_id, "mallory"),
        other => panic!("expected PlayerNotAuthorized, got {:?}", other),
    }
}

#[test]
fn first_matching_side_wins_when_both_sides_share_an_identifier() {
    let mut state = battle(GameState::WaitingForActions);
    state.players[1].player_id = "alice".to_string();
    assert_eq!(get_player_index(&state, &PlayerId("alice".to_string())).unwrap(), 0);
}

#[test]
fn normal_turn_admits_any_action_once() {
    let mut state = battle(GameState::WaitingForActions);
    assert!(validate_action_context(&state, 0, &MOVE).is_ok());
    assert!(validate_action_context(&state, 1, &SWITCH).is_ok());
    assert!(validate_action_context(&state, 1, &PlayerAction::Forfeit).is_ok());
    state.action_queue[0] = Some(MOVE);
    assert_eq!(
        invalid_action_message(validate_action_context(&state, 0, &MOVE)),
        "Player has already submitted an action for this turn"
    );
    assert!(validate_action_context(&state, 1, &MOVE).is_ok());
}

#[test]
fn replacement_of_one_side_admits_only_that_side_and_only_a_switch() {
    let state = battle(GameState::WaitingForPlayer1Replacement);
    assert!(validate_action_context(&state, 0, &SWITCH).is_ok());
    assert_eq!(
        invalid_action_message(validate_action_context(&state, 0, &MOVE)),
        "Must switch Pokemon during replacement phase"
    );
    assert_eq!(
        invalid_action_message(validate_action_context(&state, 1, &SWITCH)),
        "Only Player 1 can act during replacement phase"
    );
    let state = battle(GameState::WaitingForPlayer2Replacement);
    assert!(validate_action_context(&state, 1, &SWITCH).is_ok());
    assert_eq!(
        invalid_action_message(validate_action_context(&state, 1, &PlayerAction::Forfeit)),
        "Must switch Pokemon during replacement phase"
    );
    assert_eq!(
        invalid_action_message(validate_action_context(&state, 0, &SWITCH)),
        "Only Player 2 can act during replacement phase"
    );
}

#[test]
fn replacement_of_both_sides_admits_a_switch_from_either() {
    let state = battle(GameState::WaitingForBothReplacements);
    assert!(validate_action_context(&state, 0, &SWITCH).is_ok());
    assert!(validate_action_context(&state, 1, &SWITCH).is_ok());
    assert_eq!(
        invalid_action_message(validate_action_context(&state, 0, &MOVE)),
        "Must switch Pokemon during replacement phase"
    );
}

#[test]
fn ended_battle_rejects_every_action() {
    for (phase, name) in [
        (GameState::Player1Win, "Player1Win"),
        (GameState::Player2Win, "Player2Win"),
        (GameState::Draw, "Draw"),
    ] {
        let state = battle(phase);
        for side in 0..2 {
            for action in [MOVE, SWITCH, PlayerAction::Forfeit] {
                match validate_action_context(&state, side, &action) {
                    Err(ApiError::InvalidBattleState { state }) => assert_eq!(state, name),
                    other => panic!("expected InvalidBattleState, got {:?}", other),
                }
            }
        }
    }
}

#[test]
fn can_act_follows_the_phase_and_the_own_slot() {
    let mut state = battle(GameState::WaitingForActions);
    assert!(can_player_act(&state, 0));
    assert!(can_player_act(&state, 1));
    state.action_queue[1] = Some(MOVE);
    assert!(can_player_act(&state, 0));
    assert!(!can_player_act(&state, 1));
    let state = battle(GameState::WaitingForPlayer1Replacement);
    assert!(can_player_act(&state, 0));
    assert!(!can_player_act(&state, 1));
    let state = battle(GameState::WaitingForPlayer2Replacement);
    assert!(!can_player_act(&state, 0));
    assert!(can_player_act(&state, 1));
    let state = battle(GameState::WaitingForBothReplacements);
    assert!(can_player_act(&state, 0));
    assert!(can_player_act(&state, 1));
    for phase in [GameState::Player1Win, GameState::Player2Win, GameState::Draw] {
        let state = battle(phase);
        assert!(!can_player_act(&state, 0));
        assert!(!can_player_act(&state, 1));
    }
}

#[test]
fn can_act_agrees_with_the_admission_of_a_switch() {
    let phases = [
        GameState::WaitingForActions,
        GameState::WaitingForPlayer1Replacement,
        GameState::WaitingForPlayer2Replacement,
        GameState::WaitingForBothReplacements,
        GameState::Player1Win,
        GameState::Player2Win,
        GameState::Draw,
    ];
    let queues = [[None, None], [Some(MOVE), None], [None, Some(MOVE)], [Some(MOVE), Some(SWITCH)]];
    for phase in phases {
        for queue in queues {
            let mut state = battle(phase);
            state.action_queue = queue;
            for side in 0..2 {
                assert_eq!(
                    can_player_act(&state, side),
                    validate_action_context(&state, side, &SWITCH).is_ok()
                );
            }
        }
    }
}

#[test]
fn lone_submission_fills_the_slot_and_leaves_the_phase() {
    let state = battle(GameState::WaitingForActions);
    let after = admit_action(state, &PlayerId("alice".to_string()), MOVE, Ok(())).unwrap();
    assert_eq!(after.game_state, GameState::WaitingForActions);
    assert_eq!(after.turn_number, 4);
    assert_eq!(after.action_queue, [Some(MOVE), None]);
    assert_eq!(after.engine_data, "{}");
    assert_eq!(after.players[0].player_id, "alice");
    assert_eq!(after.players[1].team.len(), 3);
}

#[test]
fn submission_from_the_second_side_fills_the_second_slot() {
    let mut state = battle(GameState::WaitingForActions);
    state.action_queue[0] = Some(SWITCH);
    let after = admit_action(state, &PlayerId("bob".to_string()), MOVE, Ok(())).unwrap();
    assert_eq!(after.action_queue, [Some(SWITCH), Some(MOVE)]);
}

#[test]
fn submission_to_an_ended_battle_is_rejected_from_either_side() {
    for phase in [GameState::Player1Win, GameState::Player2Win, GameState::Draw] {
        for id in ["alice", "bob"] {
            let state = battle(phase);
            match admit_action(state, &PlayerId(id.to_string()), MOVE, Ok(())) {
                Err(e) => {
                    assert!(matches!(e, ApiError::InvalidBattleState { .. }));
                    assert_eq!(e.status_code(), 409);
                },
                Ok(_) => panic!("an ended battle took an action"),
            }
        }
    }
}

#[test]
fn submission_from_a_stranger_is_turned_away_before_the_phase_is_looked_at() {
    let state = battle(GameState::Draw);
    match admit_action(state, &PlayerId("mallory".to_string()), MOVE, Ok(())) {
        Err(ApiError::PlayerNotAuthorized { player_id }) => assert_eq!(player_id, "mallory"),
        other => panic!("expected PlayerNotAuthorized, got {:?}", other.map(|_| ())),
    }
}

#[test]
fn engine_refusal_is_handed_on_with_its_reason() {
    let state = battle(GameState::WaitingForActions);
    let verdict = Err("Move has no PP left".to_string());
    match admit_action(state, &PlayerId("alice".to_string()), MOVE, verdict) {
        Err(ApiError::InvalidAction { message }) => assert_eq!(message, "Move has no PP left"),
        other => panic!("expected InvalidAction, got {:?}", other.map(|_| ())),
    }
}

#[test]
fn phase_rejection_comes_before_the_engine_refusal() {
    let mut state = battle(GameState::WaitingForActions);
    state.action_queue[0] = Some(MOVE);
    let verdict = Err("Move has no PP left".to_string());
    match admit_action(state, &PlayerId("alice".to_string()), MOVE, verdict) {
        Err(ApiError::InvalidAction { message }) => {
            assert_eq!(message, "Player has already submitted an action for this turn")
        },
        other => panic!("expected InvalidAction, got {:?}", other.map(|_| ())),
    }
}

#[test]
fn npc_actions_fill_their_slots_in_order() {
    let mut state = battle(GameState::WaitingForActions);
    state.action_queue[0] = Some(MOVE);
    apply_npc_actions(&mut state, &vec![(1, MOVE), (1, SWITCH)]);
    assert_eq!(state.action_queue, [Some(MOVE), Some(SWITCH)]);
    assert_eq!(state.game_state, GameState::WaitingForActions);
    assert_eq!(state.turn_number, 4);
    let mut state = battle(GameState::WaitingForActions);
    apply_npc_actions(&mut state, &vec![]);
    assert_eq!(state.action_queue, [None, None]);
}
