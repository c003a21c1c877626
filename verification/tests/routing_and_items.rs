use pokemon_adventure_api::battle::{BattlePlayer, BattleState, GameState, PlayerAction};
use pokemon_adventure_api::database::MemoryDb;
use pokemon_adventure_api::record::{
    battle_to_item, get, get_text, item_to_battle, read_slot, write_slot, Attribute,
    AttributeValue,
};
use pokemon_adventure_api::resolution::ResolutionEngine;
use pokemon_adventure_api::router::{
    action_battle_id, battle_id_segment, first_segment, last_turns_of, player_or_default, route,
    stage_path, strip_prefix, strip_suffix, Route,
};
use pokemon_adventure_api::text::{contains, ends_with, matches_at, starts_with, to_chars};
use pokemon_adventure_api::{
    BattleHandler, BattleId, PlayerId, StoredBattle, SubmitActionRequest, TurnLog,
};

#[test]
fn fixed_paths_are_routed_by_method() {
    assert_eq!(route("GET", "/available_teams"), Route::AvailableTeams);
    assert_eq!(route("GET", "/npc_opponents"), Route::NpcOpponents);
    assert_eq!(route("POST", "/battles"), Route::CreateBattle);
    assert_eq!(route("GET", "/health"), Route::Health);
    assert_eq!(route("POST", "/available_teams"), Route::NotFound);
    assert_eq!(route("GET", "/battles"), Route::NotFound);
    assert_eq!(route("POST", "/health"), Route::NotFound);
    assert_eq!(route("get", "/health"), Route::NotFound);
    assert_eq!(route("GET", "/health/"), Route::NotFound);
    assert_eq!(route("GET", "/"), Route::NotFound);
    assert_eq!(route("", ""), Route::NotFound);
    assert_eq!(route("DELETE", "/battles/1/state"), Route::NotFound);
}

#[test]
fn battle_paths_are_routed_by_what_they_hold() {
    let id = "550e8400-e29b-41d4-a716-446655440000";
    assert_eq!(route("POST", &format!("/battles/{}/action", id)), Route::SubmitAction);
    assert_eq!(route("GET", &format!("/battles/{}/state", id)), Route::BattleState);
    assert_eq!(route("GET", &format!("/battles/{}/valid_actions", id)), Route::ValidActions);
    assert_eq!(route("GET", &format!("/battles/{}/team_info", id)), Route::TeamInfo);
    assert_eq!(route("GET", &format!("/battles/{}/events", id)), Route::BattleEvents);
    assert_eq!(route("GET", &format!("/battles/{}/action", id)), Route::NotFound);
    assert_eq!(route("POST", &format!("/battles/{}/state", id)), Route::NotFound);
    assert_eq!(route("POST", &format!("/battles/{}/action/", id)), Route::NotFound);
    assert_eq!(route("GET", &format!("/battles/{}", id)), Route::NotFound);
    assert_eq!(route("GET", "/battle/1/state"), Route::NotFound);
}

#[test]
fn first_rule_that_fits_decides() {
    assert_eq!(route("GET", "/battles/x/events/state"), Route::BattleState);
    assert_eq!(route("GET", "/battles/x/events/team_info"), Route::TeamInfo);
    assert_eq!(route("GET", "/battles/x/team_info/valid_actions"), Route::ValidActions);
    assert_eq!(route("GET", "/battles/x/statement"), Route::BattleState);
    assert_eq!(route("POST", "/battles/action"), Route::SubmitAction);
}

#[test]
fn stage_is_taken_from_the_front_of_the_path() {
    assert_eq!(stage_path("/prod/battles"), "/battles");
    assert_eq!(stage_path("/prod"), "");
    assert_eq!(stage_path("/production"), "uction");
    assert_eq!(stage_path("/battles/prod"), "/battles/prod");
    assert_eq!(stage_path(""), "");
    assert_eq!(stage_path("/pro"), "/pro");
}

#[test]
fn prefix_and_suffix_are_stripped_as_in_the_standard_library() {
    let cases = [
        ("", ""),
        ("abc", ""),
        ("abc", "a"),
        ("abc", "abc"),
        ("abc", "abcd"),
        ("abc", "bc"),
        ("abc", "c"),
        ("/battles/x/action", "/battles/"),
        ("/battles/x/action", "/action"),
        ("Pokémon", "Poké"),
        ("Pokémon", "mon"),
        ("aaa", "aa"),
    ];
    for (text, pattern) in cases {
        assert_eq!(strip_prefix(text, pattern), text.strip_prefix(pattern), "{:?} {:?}", text, pattern);
        assert_eq!(strip_suffix(text, pattern), text.strip_suffix(pattern), "{:?} {:?}", text, pattern);
        let t = to_chars(text);
        let p = to_chars(pattern);
        assert_eq!(starts_with(&t, &p), text.starts_with(pattern));
        assert_eq!(ends_with(&t, &p), text.ends_with(pattern));
        assert_eq!(contains(&t, &p), text.contains(pattern));
    }
    assert!(matches_at(&to_chars("abcabc"), &to_chars("bc"), 4));
    assert!(!matches_at(&to_chars("abcabc"), &to_chars("bc"), 5));
    assert!(!matches_at(&to_chars("abcabc"), &to_chars("bc"), 3));
    assert!(matches_at(&to_chars("abc"), &to_chars(""), 3));
    assert!(!matches_at(&to_chars("abc"), &to_chars(""), 4));
    assert_eq!(to_chars("Pokémon"), "Pokémon".chars().collect::<Vec<char>>());
}

#[test]
fn identifier_of_a_submission_stands_between_prefix_and_suffix() {
    assert_eq!(action_battle_id("/battles/abc/action"), Some("abc"));
    assert_eq!(action_battle_id("/battles//action"), Some(""));
    assert_eq!(action_battle_id("/battles/a/b/action"), Some("a/b"));
    assert_eq!(action_battle_id("/battles/action"), None);
    assert_eq!(action_battle_id("/battles/abc/actions"), None);
    assert_eq!(action_battle_id("/battle/abc/action"), None);
}

#[test]
fn identifier_of_a_query_is_the_segment_after_battles() {
    assert_eq!(battle_id_segment("/battles/abc/state"), Some("abc"));
    assert_eq!(battle_id_segment("/battles/abc"), Some("abc"));
    assert_eq!(battle_id_segment("/battles/"), Some(""));
    assert_eq!(battle_id_segment("/battles//state"), Some(""));
    assert_eq!(battle_id_segment("/battles"), None);
    assert_eq!(battle_id_segment("/x/battles/abc"), None);
    assert_eq!(first_segment("a/b/c"), "a");
    assert_eq!(first_segment("/a"), "");
    assert_eq!(first_segment("abc"), "abc");
    assert_eq!(first_segment(""), "");
}

#[test]
fn query_parameters_have_their_defaults() {
    assert_eq!(player_or_default(Some("bob")), PlayerId("bob".to_string()));
    assert_eq!(player_or_default(None), PlayerId("player_1".to_string()));
    assert_eq!(last_turns_of(Some("3")), Some(3));
    assert_eq!(last_turns_of(Some("0")), Some(0));
    assert_eq!(last_turns_of(Some("three")), None);
    assert_eq!(last_turns_of(Some("-1")), None);
    assert_eq!(last_turns_of(Some("4294967296")), None);
    assert_eq!(last_turns_of(None), None);
}

fn side(id: &str) -> BattlePlayer {
    BattlePlayer {
        player_id: id.to_string(),
        player_name: id.to_string(),
        team: vec![],
        active_pokemon_index: 0,
    }
}

fn stored() -> StoredBattle {
    StoredBattle {
        battle_id: BattleId(0x550e8400e29b41d4a716446655440000),
        player1_id: PlayerId("player_1".to_string()),
        player2_id: PlayerId("npc".to_string()),
        battle_state: BattleState {
            battle_id: "550e8400-e29b-41d4-a716-446655440000".to_string(),
            players: [side("player_1"), side("npc")],
            turn_number: 3,
            game_state: GameState::WaitingForActions,
            action_queue: [None, None],
            engine_data: "{\"turn_number\":3}".to_string(),
        },
        turn_logs: vec![TurnLog { turn_number: 1, events: vec!["a".to_string()], timestamp: 5 }],
        created_at: 1700000000,
        last_updated: -5,
        version: 12,
    }
}

fn rows(item: &[Attribute]) -> Vec<(String, String)> {
    item.iter()
        .map(|a| {
            let value = match &a.value {
                AttributeValue::S(text) => format!("S:{}", text),
                AttributeValue::N(text) => format!("N:{}", text),
                AttributeValue::Other => "other".to_string(),
            };
            (a.name.clone(), value)
        })
        .collect()
}

#[test]
fn record_is_stored_as_ten_named_attributes() {
    let item = battle_to_item(&stored(), "[{\"turn_number\":1}]".to_string());
    let expected: Vec<(String, String)> = [
        ("battle_id", "S:550e8400-e29b-41d4-a716-446655440000"),
        ("player1_id", "S:player_1"),
        ("player2_id", "S:npc"),
        ("created_at", "N:1700000000"),
        ("last_updated", "N:-5"),
        ("battle_state", "S:{\"turn_number\":3}"),
        ("turn_logs", "S:[{\"turn_number\":1}]"),
        ("version", "N:12"),
        ("player1_action", "S:none"),
        ("player2_action", "S:none"),
    ]
    .iter()
    .map(|(n, v)| (n.to_string(), v.to_string()))
    .collect();
    assert_eq!(rows(&item), expected);
}

#[test]
fn stored_item_is_read_back() {
    let item = battle_to_item(&stored(), "[]".to_string());
    let read = item_to_battle(&item).unwrap();
    assert_eq!(read.battle_id, BattleId(0x550e8400e29b41d4a716446655440000));
    assert_eq!(read.player1_id, PlayerId("player_1".to_string()));
    assert_eq!(read.player2_id, PlayerId("npc".to_string()));
    assert_eq!((read.created_at, read.last_updated, read.version), (1700000000, -5, 12));
    assert_eq!(read.battle_state, "{\"turn_number\":3}");
    assert_eq!(read.action_queue, [None, None]);
    assert_eq!(read.turn_logs.as_deref(), Some("[]"));
}

#[test]
fn pending_actions_are_written_and_read_back() {
    let actions = [
        (None, "none"),
        (Some(PlayerAction::Forfeit), "forfeit"),
        (Some(PlayerAction::UseMove { move_index: 0 }), "move:0"),
        (Some(PlayerAction::UseMove { move_index: 3 }), "move:3"),
        (Some(PlayerAction::SwitchPokemon { team_index: 5 }), "switch:5"),
        (Some(PlayerAction::SwitchPokemon { team_index: 1234 }), "switch:1234"),
        (Some(PlayerAction::UseMove { move_index: usize::MAX }), &format!("move:{}", usize::MAX)),
    ];
    for (first, first_text) in actions.iter() {
        for (second, second_text) in actions.iter() {
            let mut record = stored();
            record.battle_state.action_queue = [*first, *second];
            let item = battle_to_item(&record, "[]".to_string());
            assert_eq!(get_text(&item, "player1_action").as_deref(), Some(*first_text));
            assert_eq!(get_text(&item, "player2_action").as_deref(), Some(*second_text));
            let read = item_to_battle(&item).unwrap();
            assert_eq!(read.action_queue, [*first, *second]);
            assert_eq!(read.battle_state, record.battle_state.engine_data);
        }
        assert_eq!(write_slot(first), *first_text);
        assert_eq!(read_slot(first_text), Some(*first));
    }
}

#[test]
fn text_that_is_no_pending_action_is_refused() {
    for text in
        ["", "None", "move", "move:", "move:x", "move:-1", "move: 1", "switch:", "switch:1.5",
         "jump:1", "forfeit ", "move:99999999999999999999999", "switch:18446744073709551616"]
    {
        assert_eq!(read_slot(text), None, "{:?}", text);
        let item = with(full(), "player1_action", AttributeValue::S(text.to_string()));
        assert_eq!(item_to_battle(&item).unwrap_err(), "Invalid player1_action");
        let item = with(full(), "player2_action", AttributeValue::S(text.to_string()));
        assert_eq!(item_to_battle(&item).unwrap_err(), "Invalid player2_action");
    }
    assert_eq!(read_slot("move:+2"), Some(Some(PlayerAction::UseMove { move_index: 2 })));
    assert_eq!(read_slot("switch:007"), Some(Some(PlayerAction::SwitchPokemon { team_index: 7 })));
    let item = with(full(), "player1_action", AttributeValue::N("1".to_string()));
    assert_eq!(item_to_battle(&item).unwrap_err(), "Invalid player1_action");
    let item = with(full(), "player2_action", AttributeValue::Other);
    assert_eq!(item_to_battle(&item).unwrap_err(), "Invalid player2_action");
    let both = with(
        with(full(), "player2_action", AttributeValue::Other),
        "player1_action",
        AttributeValue::Other,
    );
    assert_eq!(item_to_battle(&both).unwrap_err(), "Invalid player1_action");
}

#[test]
fn item_without_pending_actions_is_read_with_empty_slots() {
    let mut record = stored();
    record.battle_state.action_queue = [Some(PlayerAction::Forfeit), Some(PlayerAction::Forfeit)];
    let item = battle_to_item(&record, "[]".to_string());
    let read = item_to_battle(&without(item, "player1_action")).unwrap();
    assert_eq!(read.action_queue, [None, Some(PlayerAction::Forfeit)]);
    let item = battle_to_item(&record, "[]".to_string());
    let read = item_to_battle(&without(without(item, "player2_action"), "player1_action")).unwrap();
    assert_eq!(read.action_queue, [None, None]);
}

// An engine between two players: it takes every action, decides for no
// side, and resolves only when both slots are filled.
struct TwoPlayers;

impl ResolutionEngine for TwoPlayers {
    fn validate_player_action(&self, _: &BattleState, _: usize, _: &PlayerAction) -> Result<(), String> {
        Ok(())
    }

    fn collect_npc_actions(&self, _: &BattleState) -> Vec<(usize, PlayerAction)> {
        vec![]
    }

    fn ready_for_turn_resolution(&self, state: &BattleState) -> bool {
        state.action_queue[0].is_some() && state.action_queue[1].is_some()
    }

    fn resolve_turn(&self, state: &BattleState) -> (BattleState, Vec<String>) {
        let mut after = state.clone();
        after.action_queue = [None, None];
        after.turn_number += 1;
        after.engine_data = format!("{{\"turn_number\":{}}}", after.turn_number);
        (after, vec![format!("turn {} resolved", state.turn_number)])
    }

    fn get_valid_actions(&self, _: &BattleState, _: usize) -> Vec<PlayerAction> {
        vec![]
    }
}

// What a store of items keeps of a record: the record is written as an
// item, and the battle is made again from what the item is read as.
fn through_an_item(record: &StoredBattle) -> StoredBattle {
    let read = item_to_battle(&battle_to_item(record, "[]".to_string())).unwrap();
    let mut battle_state = record.battle_state.clone();
    battle_state.engine_data = read.battle_state;
    battle_state.action_queue = read.action_queue;
    StoredBattle {
        battle_id: read.battle_id,
        player1_id: read.player1_id,
        player2_id: read.player2_id,
        battle_state,
        turn_logs: record.turn_logs.clone(),
        created_at: read.created_at,
        last_updated: read.last_updated,
        version: read.version,
    }
}

#[test]
fn lone_submission_is_kept_by_the_item_of_its_record() {
    let id = BattleId(0x550e8400e29b41d4a716446655440000);
    let alice = PlayerId("player_1".to_string());
    let mut before = stored();
    before.player2_id = PlayerId("player_2".to_string());
    before.battle_state.players[1] = side("player_2");
    let mut handler = BattleHandler::new(MemoryDb::new());
    handler
        .save_battle(
            id,
            alice.clone(),
            before.player2_id.clone(),
            before.battle_state.clone(),
            &alice,
            100,
        )
        .unwrap();
    let action = PlayerAction::UseMove { move_index: 2 };
    let request = SubmitActionRequest { battle_id: id, player_id: alice.clone(), action };
    handler.submit_action(&TwoPlayers, request, 101).unwrap();
    let written = handler.load_battle(id).unwrap();
    assert_eq!(written.battle_state.action_queue, [Some(action), None]);
    assert_eq!(written.battle_state.engine_data, before.battle_state.engine_data);
    assert_eq!(written.battle_state.turn_number, 3);

    let item = battle_to_item(&written, "[]".to_string());
    assert_eq!(get_text(&item, "player1_action").as_deref(), Some("move:2"));
    assert_eq!(get_text(&item, "player2_action").as_deref(), Some("none"));
    let read = item_to_battle(&item).unwrap();
    assert_eq!(read.action_queue, [Some(action), None]);
    let unsubmitted = item_to_battle(&battle_to_item(&before, "[]".to_string())).unwrap();
    assert_eq!(unsubmitted.action_queue, [None, None]);

    // A store that keeps items: the other side's submission finds the
    // first one and the turn is resolved.
    let kept = through_an_item(&written);
    assert_eq!(kept.battle_state.action_queue, [Some(action), None]);
    let mut handler = BattleHandler::new(MemoryDb::new());
    handler
        .save_battle(id, alice.clone(), kept.player2_id.clone(), kept.battle_state, &alice, 100)
        .unwrap();
    let again = SubmitActionRequest { battle_id: id, player_id: alice.clone(), action };
    assert!(handler.submit_action(&TwoPlayers, again, 102).is_err(), "side 0 has submitted");
    let other = SubmitActionRequest {
        battle_id: id,
        player_id: PlayerId("player_2".to_string()),
        action: PlayerAction::Forfeit,
    };
    handler.submit_action(&TwoPlayers, other, 103).unwrap();
    let resolved = handler.load_battle(id).unwrap();
    assert_eq!(resolved.battle_state.turn_number, 4);
    assert_eq!(resolved.battle_state.action_queue, [None, None]);
    assert_eq!(resolved.turn_logs.len(), 1);
    assert_eq!(resolved.turn_logs[0].turn_number, 3);
}

fn without(item: Vec<Attribute>, name: &str) -> Vec<Attribute> {
    item.into_iter().filter(|a| a.name != name).collect()
}

fn with(mut item: Vec<Attribute>, name: &str, value: AttributeValue) -> Vec<Attribute> {
    for a in item.iter_mut() {
        if a.name == name {
            a.value = value;
            return item;
        }
    }
    item.push(Attribute { name: name.to_string(), value });
    item
}

fn full() -> Vec<Attribute> {
    battle_to_item(&stored(), "[]".to_string())
}

#[test]
fn missing_attribute_is_named_in_the_reason() {
    for (name, reason) in [
        ("battle_id", "Missing battle_id"),
        ("player1_id", "Missing player1_id"),
        ("player2_id", "Missing player2_id"),
        ("created_at", "Missing or invalid created_at"),
        ("last_updated", "Missing or invalid last_updated"),
        ("battle_state", "Missing battle_state"),
    ] {
        assert_eq!(item_to_battle(&without(full(), name)).unwrap_err(), reason);
        assert_eq!(item_to_battle(&with(full(), name, AttributeValue::Other)).unwrap_err(), reason);
    }
    assert_eq!(item_to_battle(&vec![]).unwrap_err(), "Missing battle_id");
}

#[test]
fn attribute_of_the_wrong_kind_counts_as_missing() {
    let item = with(full(), "player1_id", AttributeValue::N("7".to_string()));
    assert_eq!(item_to_battle(&item).unwrap_err(), "Missing player1_id");
    let item = with(full(), "created_at", AttributeValue::S("1700000000".to_string()));
    assert_eq!(item_to_battle(&item).unwrap_err(), "Missing or invalid created_at");
    let item = with(full(), "last_updated", AttributeValue::N("soon".to_string()));
    assert_eq!(item_to_battle(&item).unwrap_err(), "Missing or invalid last_updated");
}

#[test]
fn malformed_identifier_is_refused_with_the_reason() {
    let item = with(full(), "battle_id", AttributeValue::S("nonsense".to_string()));
    let reason = item_to_battle(&item).unwrap_err();
    assert!(reason.starts_with("Invalid battle_id format: "), "{}", reason);
    assert!(reason.len() > "Invalid battle_id format: ".len());
}

#[test]
fn first_missing_attribute_gives_the_reason() {
    let item = without(without(full(), "battle_state"), "player2_id");
    assert_eq!(item_to_battle(&item).unwrap_err(), "Missing player2_id");
}

#[test]
fn item_without_turn_log_or_version_is_read_with_none() {
    let read = item_to_battle(&without(without(full(), "turn_logs"), "version")).unwrap();
    assert!(read.turn_logs.is_none());
    assert_eq!(read.version, 0);
    let read = item_to_battle(&with(full(), "turn_logs", AttributeValue::Other)).unwrap();
    assert!(read.turn_logs.is_none());
    let item = with(full(), "version", AttributeValue::N("x".to_string()));
    assert_eq!(item_to_battle(&item).unwrap_err(), "Invalid version");
    let item = with(full(), "version", AttributeValue::S("3".to_string()));
    assert_eq!(item_to_battle(&item).unwrap_err(), "Invalid version");
}

#[test]
fn first_attribute_of_a_name_is_found() {
    let mut item = full();
    item.push(Attribute { name: "player1_id".to_string(), value: AttributeValue::S("late".to_string()) });
    assert_eq!(get_text(&item, "player1_id").as_deref(), Some("player_1"));
    assert!(get(&item, "nothing").is_none());
    assert!(matches!(get(&item, "version"), Some(AttributeValue::N(_))));
    assert!(get_text(&item, "version").is_none());
}
