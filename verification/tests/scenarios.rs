use pokemon_adventure_api::battle::{
    BattlePlayer, BattleState, CurrentStats, GameState, PlayerAction, PokemonInst,
};
use pokemon_adventure_api::database::MemoryDb;
use pokemon_adventure_api::engine::submit_action;
use pokemon_adventure_api::resolution::ResolutionEngine;
use pokemon_adventure_api::ticks::process_battle_ticks;
use pokemon_adventure_api::{
    ApiError, BattleHandler, BattleId, GetBattleEventsRequest, GetBattleStateRequest,
    GetBattleStateResponse, PlayerId, SubmitActionRequest, SubmitActionResponse,
};
use std::cell::Cell;

// A stand-in for the resolution engine: it plays a fixed script. Each entry
// says what one resolution does to the battle and which events it gives.
struct Resolution {
    events: Vec<&'static str>,
    next_turn: u32,
    next_phase: GameState,
    faints_opponent: bool,
    replaces_opponent: bool,
}

fn step(events: &[&'static str], next_turn: u32, next_phase: GameState) -> Resolution {
    Resolution {
        events: events.to_vec(),
        next_turn,
        next_phase,
        faints_opponent: false,
        replaces_opponent: false,
    }
}

struct ScriptedEngine {
    script: Vec<Resolution>,
    resolved: Cell<usize>,
    // Whether side 1 is automated, and the roster slot that it sends out
    // when it owes a replacement.
    automated: bool,
    npc_replacement: Option<usize>,
    refuses: Option<&'static str>,
}

impl ScriptedEngine {
    fn against_npc(script: Vec<Resolution>) -> Self {
        ScriptedEngine {
            script,
            resolved: Cell::new(0),
            automated: true,
            npc_replacement: Some(1),
            refuses: None,
        }
    }

    fn against_human(script: Vec<Resolution>) -> Self {
        ScriptedEngine {
            script,
            resolved: Cell::new(0),
            automated: false,
            npc_replacement: None,
            refuses: None,
        }
    }
}

impl ResolutionEngine for ScriptedEngine {
    fn validate_player_action(&self, _: &BattleState, _: usize, _: &PlayerAction) -> Result<(), String> {
        match self.refuses {
            Some(reason) => Err(reason.to_string()),
            None => Ok(()),
        }
    }

    fn collect_npc_actions(&self, state: &BattleState) -> Vec<(usize, PlayerAction)> {
        if !self.automated || state.action_queue[1].is_some() {
            return vec![];
        }
        match state.game_state {
            GameState::WaitingForActions => vec![(1, PlayerAction::UseMove { move_index: 0 })],
            GameState::WaitingForPlayer2Replacement | GameState::WaitingForBothReplacements => {
                match self.npc_replacement {
                    Some(team_index) => vec![(1, PlayerAction::SwitchPokemon { team_index })],
                    None => vec![],
                }
            },
            _ => vec![],
        }
    }

    fn ready_for_turn_resolution(&self, state: &BattleState) -> bool {
        match state.game_state {
            GameState::WaitingForActions | GameState::WaitingForBothReplacements => {
                state.action_queue[0].is_some() && state.action_queue[1].is_some()
            },
            GameState::WaitingForPlayer1Replacement => state.action_queue[0].is_some(),
            GameState::WaitingForPlayer2Replacement => state.action_queue[1].is_some(),
            _ => false,
        }
    }

    // One resolution. Where it leaves the automated side owing a
    // replacement, the engine puts that side's choice in its slot itself.
    fn resolve_turn(&self, state: &BattleState) -> (BattleState, Vec<String>) {
        let step = &self.script[self.resolved.get()];
        self.resolved.set(self.resolved.get() + 1);
        let mut after = state.clone();
        after.action_queue = [None, None];
        after.turn_number = step.next_turn;
        after.game_state = step.next_phase;
        if step.faints_opponent {
            let active = after.players[1].active_pokemon_index;
            if let Some(p) = after.players[1].team[active].as_mut() {
                p.current_hp = 0;
                p.fainted = true;
            }
        }
        if step.replaces_opponent {
            after.players[1].active_pokemon_index = self.npc_replacement.unwrap();
        }
        if after.game_state == GameState::WaitingForPlayer2Replacement {
            for (side, action) in self.collect_npc_actions(&after) {
                after.action_queue[side] = Some(action);
            }
        }
        (after, step.events.iter().map(|e| e.to_string()).collect())
    }

    fn get_valid_actions(&self, _: &BattleState, _: usize) -> Vec<PlayerAction> {
        vec![PlayerAction::Forfeit]
    }
}

fn pokemon(name: &str, current_hp: u16) -> PokemonInst {
    PokemonInst {
        name: name.to_string(),
        species: name.to_string(),
        level: 50,
        current_hp,
        max_hp: 150,
        stats: CurrentStats { attack: 1, defense: 1, sp_attack: 1, sp_defense: 1, speed: 1 },
        moves: vec![],
        status: None,
        fainted: current_hp == 0,
    }
}

fn new_battle() -> BattleState {
    BattleState {
        battle_id: "b".to_string(),
        players: [
            BattlePlayer {
                player_id: "player_1".to_string(),
                player_name: "Test Trainer".to_string(),
                team: vec![Some(pokemon("Venusaur", 150))],
                active_pokemon_index: 0,
            },
            BattlePlayer {
                player_id: "npc".to_string(),
                player_name: "Gym Leader Brock".to_string(),
                team: vec![Some(pokemon("Geodude", 20)), Some(pokemon("Onix", 150))],
                active_pokemon_index: 0,
            },
        ],
        turn_number: 1,
        game_state: GameState::WaitingForActions,
        action_queue: [None, None],
        engine_data: String::new(),
    }
}

fn store(handler: &mut BattleHandler<MemoryDb>, battle_id: BattleId, battle: BattleState) {
    let player = PlayerId("player_1".to_string());
    handler
        .save_battle(battle_id, player.clone(), PlayerId("npc".to_string()), battle, &player, 100)
        .unwrap();
}

fn submit(
    handler: &mut BattleHandler<MemoryDb>,
    engine: &ScriptedEngine,
    battle_id: BattleId,
    player: &str,
    action: PlayerAction,
    now: i64,
) -> Result<SubmitActionResponse, ApiError> {
    let request =
        SubmitActionRequest { battle_id, player_id: PlayerId(player.to_string()), action };
    handler.submit_action(engine, request, now)
}

fn last_events(handler: &BattleHandler<MemoryDb>, battle_id: BattleId) -> (u32, Vec<String>) {
    let response = handler
        .get_battle_events(GetBattleEventsRequest {
            battle_id,
            player_id: PlayerId("player_1".to_string()),
            last_turns: Some(1),
        })
        .unwrap();
    let last = response.turn_logs.last().unwrap();
    (last.turn_number, last.events.clone())
}

fn state_of(handler: &BattleHandler<MemoryDb>, battle_id: BattleId) -> GetBattleStateResponse {
    handler
        .get_battle_state(GetBattleStateRequest {
            battle_id,
            player_id: PlayerId("player_1".to_string()),
        })
        .unwrap()
}

const MOVE: PlayerAction = PlayerAction::UseMove { move_index: 0 };

#[test]
fn charging_move_takes_two_turns() {
    let engine = ScriptedEngine::against_npc(vec![
        step(
            &["Venusaur was affected by Charging", "", "Geodude used Tackle"],
            2,
            GameState::WaitingForActions,
        ),
        step(
            &["Venusaur used SolarBeam", "Geodude took 20 damage", ""],
            3,
            GameState::WaitingForActions,
        ),
    ]);
    let id = BattleId(1);
    let mut handler = BattleHandler::new(MemoryDb::new());
    store(&mut handler, id, new_battle());

    let solar_beam = PlayerAction::UseMove { move_index: 1 };
    let response = submit(&mut handler, &engine, id, "player_1", solar_beam, 101).unwrap();
    assert!(response.success, "Action submission should succeed");
    let (turn, events) = last_events(&handler, id);
    assert_eq!(turn, 1);
    assert!(events.iter().any(|e| e.contains("Venusaur was affected by Charging")));
    assert!(!events.iter().any(|e| e.contains("took") && e.contains("damage")));
    assert!(events.iter().all(|e| !e.is_empty()));
    let state = state_of(&handler, id);
    assert_eq!(state.turn_number, 2, "Should have advanced to turn 2");
    assert_eq!(state.game_state, GameState::WaitingForActions);
    assert!(state.can_act);

    submit(&mut handler, &engine, id, "player_1", MOVE, 102).unwrap();
    let (turn, events) = last_events(&handler, id);
    assert_eq!(turn, 2);
    assert!(events.iter().any(|e| e.contains("Venusaur used SolarBeam")));
    assert!(events.iter().any(|e| e.contains("took") && e.contains("damage")));
    let state = state_of(&handler, id);
    assert_eq!(state.turn_number, 3, "Should now be turn 3");
    assert!(state.can_act);
    assert_eq!(engine.resolved.get(), 2);
}

fn faint(next_turn: u32) -> Resolution {
    Resolution {
        events: vec!["Venusaur used Tackle", "Geodude took 20 damage", "Geodude fainted!"],
        next_turn,
        next_phase: GameState::WaitingForPlayer2Replacement,
        faints_opponent: true,
        replaces_opponent: false,
    }
}

fn replacement(next_turn: u32) -> Resolution {
    Resolution {
        events: vec!["Opponent recalled Geodude and sent out Onix"],
        next_turn,
        next_phase: GameState::WaitingForActions,
        faints_opponent: false,
        replaces_opponent: true,
    }
}

#[test]
fn fainted_opponent_is_replaced_within_the_same_submission() {
    let engine = ScriptedEngine::against_npc(vec![faint(1), replacement(2)]);
    let id = BattleId(2);
    let mut handler = BattleHandler::new(MemoryDb::new());
    store(&mut handler, id, new_battle());

    submit(&mut handler, &engine, id, "player_1", MOVE, 101).unwrap();
    assert_eq!(engine.resolved.get(), 2, "the replacement is resolved without further input");
    let (turn, events) = last_events(&handler, id);
    assert_eq!(turn, 1);
    let fainted = events.iter().position(|e| e.contains("fainted!")).unwrap();
    let replaced = events
        .iter()
        .position(|e| e.contains("Opponent recalled") && e.contains("sent out"))
        .unwrap();
    assert!(fainted < replaced);
    let state = state_of(&handler, id);
    assert_eq!(state.game_state, GameState::WaitingForActions);
    assert_eq!(state.turn_number, 2);
    assert!(state.can_act);
    let opponent = state.opponent_info.active_pokemon.as_ref().unwrap();
    assert_eq!(opponent.name, "Onix");
    assert!(opponent.current_hp > 0, "New NPC Pokémon should be healthy.");
    assert_eq!(state.opponent_info.remaining_pokemon_count, 0, "the bench has fainted");
}

#[test]
fn replacement_is_logged_under_its_own_turn_where_the_engine_counts_up_with_the_faint() {
    let engine = ScriptedEngine::against_npc(vec![
        faint(2),
        replacement(2),
        step(&["Venusaur used Tackle"], 3, GameState::WaitingForActions),
    ]);
    let id = BattleId(6);
    let mut handler = BattleHandler::new(MemoryDb::new());
    store(&mut handler, id, new_battle());
    submit(&mut handler, &engine, id, "player_1", MOVE, 101).unwrap();
    submit(&mut handler, &engine, id, "player_1", MOVE, 102).unwrap();
    let all = handler
        .get_battle_events(GetBattleEventsRequest {
            battle_id: id,
            player_id: PlayerId("player_1".to_string()),
            last_turns: None,
        })
        .unwrap();
    let entries: Vec<(u32, Vec<String>, i64)> =
        all.turn_logs.iter().map(|l| (l.turn_number, l.events.clone(), l.timestamp)).collect();
    let texts = |items: &[&str]| -> Vec<String> { items.iter().map(|s| s.to_string()).collect() };
    assert_eq!(
        entries,
        vec![
            (1, texts(&["Venusaur used Tackle", "Geodude took 20 damage", "Geodude fainted!"]), 101),
            (2, texts(&["Opponent recalled Geodude and sent out Onix", "Venusaur used Tackle"]), 101),
        ]
    );
    assert_eq!(all.total_turns, 3);
}

#[test]
fn submission_against_a_human_opponent_waits_for_the_other_side() {
    let engine = ScriptedEngine::against_human(vec![step(&["both moved"], 2, GameState::WaitingForActions)]);
    let id = BattleId(3);
    let mut handler = BattleHandler::new(MemoryDb::new());
    let mut battle = new_battle();
    battle.players[1].player_id = "player_2".to_string();
    handler
        .save_battle(
            id,
            PlayerId("player_1".to_string()),
            PlayerId("player_2".to_string()),
            battle,
            &PlayerId("player_1".to_string()),
            100,
        )
        .unwrap();
    submit(&mut handler, &engine, id, "player_1", PlayerAction::Forfeit, 101).unwrap();
    assert_eq!(engine.resolved.get(), 0);
    let record = handler.load_battle(id).unwrap();
    assert_eq!(record.battle_state.game_state, GameState::WaitingForActions);
    assert_eq!(record.battle_state.turn_number, 1);
    assert_eq!(record.battle_state.action_queue, [Some(PlayerAction::Forfeit), None]);
    assert!(record.turn_logs.is_empty());
    assert_eq!(record.version, 1);
    assert!(!state_of(&handler, id).can_act);

    let again = submit(&mut handler, &engine, id, "player_1", MOVE, 102);
    match again {
        Err(ApiError::InvalidAction { message }) => {
            assert_eq!(message, "Player has already submitted an action for this turn")
        },
        other => panic!("expected InvalidAction, got {:?}", other),
    }
    assert_eq!(handler.load_battle(id).unwrap().version, 1, "a rejected submission stores nothing");

    submit(&mut handler, &engine, id, "player_2", MOVE, 103).unwrap();
    assert_eq!(engine.resolved.get(), 1);
    let record = handler.load_battle(id).unwrap();
    assert_eq!(record.battle_state.turn_number, 2);
    assert_eq!(record.battle_state.action_queue, [None, None]);
    assert_eq!(record.turn_logs.len(), 1);
    assert_eq!(record.turn_logs[0].events, vec!["both moved"]);
    assert_eq!(record.version, 2);
}

#[test]
fn ended_battle_takes_no_submission_and_keeps_its_turn_number() {
    let engine = ScriptedEngine::against_npc(vec![]);
    let id = BattleId(4);
    let mut handler = BattleHandler::new(MemoryDb::new());
    let mut battle = new_battle();
    battle.game_state = GameState::Player1Win;
    battle.turn_number = 12;
    store(&mut handler, id, battle);
    for player in ["player_1", "npc"] {
        match submit(&mut handler, &engine, id, player, MOVE, 101) {
            Err(ApiError::InvalidBattleState { state }) => assert_eq!(state, "Player1Win"),
            other => panic!("expected InvalidBattleState, got {:?}", other),
        }
    }
    let record = handler.load_battle(id).unwrap();
    assert_eq!(record.battle_state.turn_number, 12);
    assert_eq!(record.version, 0);
    assert_eq!(record.last_updated, 100);
    assert_eq!(engine.resolved.get(), 0);
}

#[test]
fn stranger_and_refused_action_store_nothing() {
    let mut engine = ScriptedEngine::against_npc(vec![]);
    let id = BattleId(7);
    let mut handler = BattleHandler::new(MemoryDb::new());
    store(&mut handler, id, new_battle());
    let r = submit(&mut handler, &engine, id, "mallory", MOVE, 101);
    assert!(matches!(r, Err(ApiError::PlayerNotAuthorized { .. })));
    engine.refuses = Some("Move has no PP left");
    match submit(&mut handler, &engine, id, "player_1", MOVE, 102) {
        Err(ApiError::InvalidAction { message }) => assert_eq!(message, "Move has no PP left"),
        other => panic!("expected InvalidAction, got {:?}", other),
    }
    let record = handler.load_battle(id).unwrap();
    assert_eq!(record.version, 0);
    assert_eq!(record.battle_state.action_queue, [None, None]);
}

#[test]
fn engine_that_never_comes_to_rest_is_stopped_at_the_ceiling() {
    let script = (0..150)
        .map(|i| Resolution {
            events: vec!["tick"],
            next_turn: i + 2,
            next_phase: GameState::WaitingForPlayer2Replacement,
            faints_opponent: false,
            replaces_opponent: false,
        })
        .collect();
    let engine = ScriptedEngine::against_npc(script);
    let id = BattleId(5);
    let mut handler = BattleHandler::new(MemoryDb::new());
    store(&mut handler, id, new_battle());
    match submit(&mut handler, &engine, id, "player_1", MOVE, 101) {
        Err(ApiError::InternalError { message }) => {
            assert_eq!(message, "Battle processing exceeded maximum iterations")
        },
        other => panic!("expected InternalError, got {:?}", other),
    }
    assert_eq!(engine.resolved.get(), 100);
    let record = handler.load_battle(id).unwrap();
    assert_eq!(record.battle_state.turn_number, 1, "nothing of the failed run is stored");
    assert_eq!(record.battle_state.action_queue, [None, None]);
    assert!(record.turn_logs.is_empty());
    assert_eq!(record.version, 0);
}

#[test]
fn engine_whose_turn_count_goes_back_stores_nothing() {
    let engine = ScriptedEngine::against_npc(vec![
        step(&["first"], 3, GameState::WaitingForActions),
        step(&["second"], 2, GameState::WaitingForActions),
        step(&["third"], 4, GameState::WaitingForActions),
    ]);
    let id = BattleId(8);
    let mut handler = BattleHandler::new(MemoryDb::new());
    store(&mut handler, id, new_battle());
    submit(&mut handler, &engine, id, "player_1", MOVE, 101).unwrap();
    submit(&mut handler, &engine, id, "player_1", MOVE, 102).unwrap();
    let before = handler.load_battle(id).unwrap();
    assert_eq!(before.battle_state.turn_number, 2);
    assert_eq!(before.turn_logs.last().unwrap().turn_number, 3);
    match submit(&mut handler, &engine, id, "player_1", MOVE, 103) {
        Err(ApiError::InternalError { message }) => assert_eq!(message, "Turn number went back"),
        other => panic!("expected InternalError, got {:?}", other),
    }
    let after = handler.load_battle(id).unwrap();
    assert_eq!((after.version, after.last_updated), (before.version, before.last_updated));
    assert_eq!(after.battle_state.turn_number, 2);
    assert_eq!(after.battle_state.action_queue, [None, None]);
    let numbers: Vec<u32> = after.turn_logs.iter().map(|l| l.turn_number).collect();
    assert_eq!(numbers, vec![1, 3]);
    let events: Vec<Vec<String>> = after.turn_logs.iter().map(|l| l.events.clone()).collect();
    assert_eq!(events, vec![vec!["first".to_string()], vec!["second".to_string()]]);
}

// An engine whose automated side names a side that does not exist.
struct ConfusedEngine;

impl ResolutionEngine for ConfusedEngine {
    fn validate_player_action(&self, _: &BattleState, _: usize, _: &PlayerAction) -> Result<(), String> {
        Ok(())
    }

    fn collect_npc_actions(&self, _: &BattleState) -> Vec<(usize, PlayerAction)> {
        vec![(1, MOVE), (2, MOVE)]
    }

    fn ready_for_turn_resolution(&self, _: &BattleState) -> bool {
        true
    }

    fn resolve_turn(&self, state: &BattleState) -> (BattleState, Vec<String>) {
        (state.clone(), vec![])
    }

    fn get_valid_actions(&self, _: &BattleState, _: usize) -> Vec<PlayerAction> {
        vec![]
    }
}

#[test]
fn action_for_a_side_that_does_not_exist_is_an_internal_error() {
    match process_battle_ticks(&ConfusedEngine, new_battle()) {
        Err(ApiError::InternalError { message }) => {
            assert_eq!(message, "Automated action for a side that does not exist")
        },
        other => panic!("expected InternalError, got {:?}", other.map(|_| ())),
    }
    let r = submit_action(&ConfusedEngine, new_battle(), &PlayerId("player_1".to_string()), MOVE);
    assert!(matches!(r, Err(ApiError::InternalError { .. })));
}

#[test]
fn processing_alone_starts_from_the_battle_as_it_stands() {
    let engine = ScriptedEngine::against_npc(vec![step(&["a", ""], 2, GameState::Draw)]);
    let mut battle = new_battle();
    battle.action_queue[0] = Some(MOVE);
    let (state, turns) = process_battle_ticks(&engine, battle).unwrap();
    assert_eq!(state.game_state, GameState::Draw);
    assert_eq!(state.turn_number, 2);
    assert_eq!(turns.len(), 1);
    assert_eq!(turns[0].turn_number, 1);
    assert_eq!(turns[0].events, vec!["a"]);
    let (state, turns) = process_battle_ticks(&engine, new_battle()).unwrap();
    assert_eq!(state.action_queue, [None, Some(MOVE)]);
    assert!(turns.is_empty());
}
