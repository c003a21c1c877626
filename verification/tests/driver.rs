use pokemon_adventure_api::battle::{
    BattlePlayer, BattleState, GameState, PlayerAction,
};
use pokemon_adventure_api::ticks::{keep_events, TickDriver, TickStep, MAX_ITERATIONS};
use pokemon_adventure_api::ApiError;

fn side(id: &str) -> BattlePlayer {
    BattlePlayer {
        player_id: id.to_string(),
        player_name: id.to_string(),
        team: vec![],
        active_pokemon_index: 0,
    }
}

fn battle(game_state: GameState, turn_number: u32, queue: [Option<PlayerAction>; 2]) -> BattleState {
    BattleState {
        battle_id: "b".to_string(),
        players: [side("a"), side("b")],
        turn_number,
        game_state,
        action_queue: queue,
        engine_data: String::new(),
    }
}

const MOVE: Option<PlayerAction> = Some(PlayerAction::UseMove { move_index: 0 });

fn texts(items: &[&str]) -> Vec<String> {
    items.iter().map(|s| s.to_string()).collect()
}

#[test]
fn empty_texts_are_dropped_and_order_is_kept() {
    assert_eq!(keep_events(&texts(&["a", "", "b", "", "", "c"])), texts(&["a", "b", "c"]));
    assert_eq!(keep_events(&texts(&["", ""])), Vec::<String>::new());
    assert_eq!(keep_events(&texts(&[])), Vec::<String>::new());
    assert_eq!(keep_events(&texts(&[" "])), texts(&[" "]));
}

#[test]
fn driver_waits_while_a_slot_is_empty() {
    let driver = TickDriver::start(battle(GameState::WaitingForActions, 1, [MOVE, None]));
    assert_eq!(driver.next_step(true), TickStep::Finished);
    assert_eq!(driver.next_step(false), TickStep::Finished);
    let driver = TickDriver::start(battle(GameState::WaitingForActions, 1, [None, MOVE]));
    assert_eq!(driver.next_step(true), TickStep::Finished);
    let driver = TickDriver::start(battle(GameState::WaitingForActions, 1, [None, None]));
    assert_eq!(driver.next_step(true), TickStep::Finished);
}

#[test]
fn driver_resolves_when_both_slots_are_filled_and_the_engine_is_ready() {
    let driver = TickDriver::start(battle(GameState::WaitingForActions, 1, [MOVE, MOVE]));
    assert_eq!(driver.next_step(true), TickStep::Resolve);
    assert_eq!(driver.next_step(false), TickStep::Finished);
}

#[test]
fn driver_follows_the_engine_in_replacement_phases() {
    let switch = Some(PlayerAction::SwitchPokemon { team_index: 1 });
    let driver = TickDriver::start(battle(GameState::WaitingForPlayer2Replacement, 3, [None, switch]));
    assert_eq!(driver.next_step(true), TickStep::Resolve);
    assert_eq!(driver.next_step(false), TickStep::Finished);
}

#[test]
fn driver_stops_at_the_end_of_the_battle() {
    for phase in [GameState::Player1Win, GameState::Player2Win, GameState::Draw] {
        let driver = TickDriver::start(battle(phase, 5, [MOVE, MOVE]));
        assert_eq!(driver.next_step(true), TickStep::Finished);
    }
}

#[test]
fn resolution_is_filed_under_the_turn_that_was_resolved() {
    let mut driver = TickDriver::start(battle(GameState::WaitingForActions, 1, [MOVE, MOVE]));
    assert_eq!(driver.next_step(true), TickStep::Resolve);
    driver.record_turn(
        battle(GameState::WaitingForActions, 2, [None, None]),
        &texts(&["Venusaur was affected by Charging", "", "Onix used Tackle"]),
    );
    assert_eq!(driver.iterations, 1);
    assert_eq!(driver.state.turn_number, 2);
    assert_eq!(driver.next_step(false), TickStep::Finished);
    let (state, turns) = driver.finish();
    assert_eq!(state.turn_number, 2);
    assert_eq!(state.action_queue, [None, None]);
    assert_eq!(turns.len(), 1);
    assert_eq!(turns[0].turn_number, 1);
    assert_eq!(turns[0].events, texts(&["Venusaur was affected by Charging", "Onix used Tackle"]));
}

#[test]
fn several_resolutions_keep_their_order() {
    let mut driver = TickDriver::start(battle(GameState::WaitingForActions, 4, [MOVE, MOVE]));
    driver.record_turn(
        battle(GameState::WaitingForPlayer2Replacement, 5, [None, Some(PlayerAction::SwitchPokemon { team_index: 2 })]),
        &texts(&["Onix fainted!"]),
    );
    assert_eq!(driver.next_step(true), TickStep::Resolve);
    driver.record_turn(
        battle(GameState::WaitingForActions, 5, [None, None]),
        &texts(&["Opponent recalled Onix and sent out Golem"]),
    );
    assert_eq!(driver.next_step(false), TickStep::Finished);
    let (state, turns) = driver.finish();
    assert_eq!(state.game_state, GameState::WaitingForActions);
    assert_eq!(turns.len(), 2);
    assert_eq!((turns[0].turn_number, turns[1].turn_number), (4, 5));
    assert_eq!(turns[0].events, texts(&["Onix fainted!"]));
    assert_eq!(turns[1].events, texts(&["Opponent recalled Onix and sent out Golem"]));
}

#[test]
fn ceiling_is_one_hundred_resolutions() {
    assert_eq!(MAX_ITERATIONS, 100);
    let mut driver = TickDriver::start(battle(GameState::WaitingForActions, 1, [MOVE, MOVE]));
    let mut resolutions = 0;
    loop {
        match driver.next_step(true) {
            TickStep::Resolve => {
                resolutions += 1;
                let turn = driver.state.turn_number + 1;
                driver.record_turn(battle(GameState::WaitingForActions, turn, [MOVE, MOVE]), &texts(&["tick"]));
            },
            TickStep::Exceeded => break,
            TickStep::Finished => panic!("the battle stayed ready"),
        }
    }
    assert_eq!(resolutions, 100);
    assert_eq!(driver.iterations, 100);
    match TickDriver::ceiling_error() {
        ApiError::InternalError { message } => {
            assert_eq!(message, "Battle processing exceeded maximum iterations")
        },
        other => panic!("expected InternalError, got {:?}", other),
    }
    assert_eq!(TickDriver::ceiling_error().status_code(), 500);
}

#[test]
fn battle_that_comes_to_rest_at_the_ceiling_is_finished() {
    let mut driver = TickDriver::start(battle(GameState::WaitingForActions, 1, [MOVE, MOVE]));
    for _ in 0..100 {
        assert_eq!(driver.next_step(true), TickStep::Resolve);
        driver.record_turn(battle(GameState::WaitingForActions, 1, [MOVE, MOVE]), &texts(&[]));
    }
    assert_eq!(driver.next_step(false), TickStep::Finished);
    assert_eq!(driver.next_step(true), TickStep::Exceeded);
    driver.record_turn(battle(GameState::Draw, 1, [None, None]), &texts(&[]));
    assert_eq!(driver.iterations, 100, "the count stays at the ceiling");
    assert_eq!(driver.next_step(true), TickStep::Finished);
}
