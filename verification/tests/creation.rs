use pokemon_adventure_api::battle::{BattlePlayer, BattleState, GameState};
use pokemon_adventure_api::database::MemoryDb;
use pokemon_adventure_api::engine::{
    average_is_defined, create_battle, create_mvp_battle, get_available_teams,
    get_npc_opponents, npc_difficulty, plan_battle, plan_mvp_battle, prefab_team_info,
    validate_team, validate_team_pokemon, BattlePlan, EntryLookup, PrefabTeam,
};
use pokemon_adventure_api::resolution::BattleBuilder;
use pokemon_adventure_api::{
    ApiError, BattleHandler, CreateBattleRequest, CreateMvpBattleRequest, PlayerId, TeamPokemon,
};
use std::cell::Cell;

const KNOWN: EntryLookup = EntryLookup { species_known: true, moves_known: true };

fn entry(species: &str, level: u8, moves: usize) -> TeamPokemon {
    TeamPokemon {
        species: species.to_string(),
        level,
        moves: (0..moves).map(|i| format!("Move{}", i)).collect(),
        nickname: None,
    }
}

fn roster(size: usize) -> Vec<TeamPokemon> {
    (0..size).map(|_| entry("Pikachu", 50, 2)).collect()
}

fn validation_message<T: std::fmt::Debug>(r: Result<T, ApiError>) -> String {
    match r {
        Err(ApiError::ValidationError { message }) => message,
        other => panic!("expected ValidationError, got {:?}", other),
    }
}

#[test]
fn roster_of_one_to_six_passes() {
    for size in 1..=6 {
        assert!(validate_team(&roster(size), &vec![KNOWN; size]).is_ok(), "size {}", size);
    }
}

#[test]
fn roster_of_seven_fails_validation() {
    let r = validate_team(&roster(7), &vec![KNOWN; 7]);
    assert_eq!(validation_message(r), "Team cannot have more than 6 Pokemon");
}

#[test]
fn empty_roster_fails_validation() {
    let r = validate_team(&roster(0), &vec![]);
    assert_eq!(validation_message(r), "Team cannot be empty");
}

#[test]
fn level_zero_and_level_one_hundred_and_one_fail_validation() {
    let r = validate_team(&vec![entry("Pikachu", 0, 2)], &vec![KNOWN]);
    assert_eq!(validation_message(r), "Invalid level 0 for Pikachu");
    let r = validate_team(&vec![entry("Mew", 101, 2)], &vec![KNOWN]);
    assert_eq!(validation_message(r), "Invalid level 101 for Mew");
    let r = validate_team(&vec![entry("Mew", 255, 2)], &vec![KNOWN]);
    assert_eq!(validation_message(r), "Invalid level 255 for Mew");
    assert!(validate_team(&vec![entry("Mew", 1, 2)], &vec![KNOWN]).is_ok());
    assert!(validate_team(&vec![entry("Mew", 100, 2)], &vec![KNOWN]).is_ok());
}

#[test]
fn unknown_species_and_unknown_moves_fail_validation() {
    let unknown_species = EntryLookup { species_known: false, moves_known: true };
    let unknown_moves = EntryLookup { species_known: true, moves_known: false };
    let r = validate_team_pokemon(&entry("Missingno", 50, 2), unknown_species);
    assert_eq!(validation_message(r), "Species data not found for Missingno");
    let r = validate_team_pokemon(&entry("Pikachu", 50, 2), unknown_moves);
    assert_eq!(validation_message(r), "Move data not found for Pikachu");
    let r = validate_team(&roster(2), &vec![KNOWN]);
    assert_eq!(validation_message(r), "Species data not found for Pikachu");
}

#[test]
fn number_of_moves_must_be_one_to_four() {
    let r = validate_team_pokemon(&entry("Pikachu", 50, 0), KNOWN);
    assert_eq!(validation_message(r), "Pokemon must have 1-4 moves");
    let r = validate_team_pokemon(&entry("Pikachu", 50, 5), KNOWN);
    assert_eq!(validation_message(r), "Pokemon must have 1-4 moves");
    for moves in 1..=4 {
        assert!(validate_team_pokemon(&entry("Pikachu", 50, moves), KNOWN).is_ok());
    }
}

#[test]
fn checks_of_an_entry_come_in_order() {
    let nothing = EntryLookup { species_known: false, moves_known: false };
    let r = validate_team_pokemon(&entry("Ditto", 0, 0), nothing);
    assert_eq!(validation_message(r), "Invalid level 0 for Ditto");
    let r = validate_team_pokemon(&entry("Ditto", 5, 0), nothing);
    assert_eq!(validation_message(r), "Species data not found for Ditto");
    let r = validate_team_pokemon(&entry("Ditto", 5, 0), EntryLookup { species_known: true, moves_known: false });
    assert_eq!(validation_message(r), "Pokemon must have 1-4 moves");
}

#[test]
fn first_failing_entry_gives_the_error() {
    let team = vec![entry("Abra", 5, 1), entry("Kadabra", 0, 1), entry("Alakazam", 101, 1)];
    let r = validate_team(&team, &vec![KNOWN; 3]);
    assert_eq!(validation_message(r), "Invalid level 0 for Kadabra");
}

#[test]
fn plan_of_a_battle_names_both_sides() {
    let plan = plan_battle(
        "id-1".to_string(),
        PlayerId("alice".to_string()),
        &roster(1),
        &vec![KNOWN],
        PlayerId("bob".to_string()),
        &roster(6),
        &vec![KNOWN; 6],
    )
    .unwrap();
    assert_eq!(plan.battle_id, "id-1");
    assert_eq!(plan.player1_id, "alice");
    assert_eq!(plan.player1_name, "Player alice");
    assert_eq!(plan.player2_id, "bob");
    assert_eq!(plan.player2_name, "Player bob");
}

#[test]
fn first_roster_is_checked_before_the_second() {
    let r = plan_battle(
        "id".to_string(),
        PlayerId("alice".to_string()),
        &roster(7),
        &vec![KNOWN; 7],
        PlayerId("bob".to_string()),
        &roster(0),
        &vec![],
    );
    assert_eq!(validation_message(r), "Team cannot have more than 6 Pokemon");
    let r = plan_battle(
        "id".to_string(),
        PlayerId("alice".to_string()),
        &roster(2),
        &vec![KNOWN; 2],
        PlayerId("bob".to_string()),
        &roster(0),
        &vec![],
    );
    assert_eq!(validation_message(r), "Team cannot be empty");
}

#[test]
fn three_automated_opponents_are_on_offer() {
    let opponents = get_npc_opponents();
    let rows: Vec<(&str, &str, &str, &str)> = opponents
        .iter()
        .map(|o| (o.id.as_str(), o.name.as_str(), o.description.as_str(), o.difficulty.as_str()))
        .collect();
    assert_eq!(
        rows,
        vec![
            (
                "gym_leader_easy",
                "Gym Leader Brock",
                "Rock-type specialist with defensive strategies",
                "easy"
            ),
            (
                "gym_leader_medium",
                "Gym Leader Misty",
                "Water-type master with balanced offense and control",
                "medium"
            ),
            (
                "gym_leader_hard",
                "Gym Leader Lt. Surge",
                "Electric-type powerhouse with aggressive tactics",
                "hard"
            ),
        ]
    );
    let handler = BattleHandler::new(MemoryDb::new());
    assert_eq!(handler.get_npc_opponents().opponents.len(), 3);
}

#[test]
fn every_opponent_on_offer_has_its_difficulty() {
    for opponent in get_npc_opponents() {
        assert_eq!(npc_difficulty(&opponent.id).unwrap(), opponent.difficulty);
    }
    assert_eq!(npc_difficulty("gym_leader_easy").unwrap(), "easy");
    assert_eq!(npc_difficulty("gym_leader_medium").unwrap(), "medium");
    assert_eq!(npc_difficulty("gym_leader_hard").unwrap(), "hard");
}

#[test]
fn unknown_opponent_fails_validation() {
    assert_eq!(validation_message(npc_difficulty("champion")), "Unknown opponent: champion");
    assert_eq!(validation_message(npc_difficulty("")), "Unknown opponent: ");
    assert_eq!(validation_message(npc_difficulty("gym_leader_easy ")), "Unknown opponent: gym_leader_easy ");
}

#[test]
fn refused_team_comes_before_the_opponent() {
    let r = plan_mvp_battle(Err("Unknown team: x".to_string()), "champion");
    assert_eq!(validation_message(r), "Unknown team: x");
    let r = plan_mvp_battle(Ok(()), "champion");
    assert_eq!(validation_message(r), "Unknown opponent: champion");
    assert_eq!(plan_mvp_battle(Ok(()), "gym_leader_hard").unwrap(), "hard");
}

fn team(id: &str, levels: &[u8]) -> PrefabTeam {
    PrefabTeam {
        id: id.to_string(),
        name: format!("{} team", id),
        description: format!("about {}", id),
        levels: levels.to_vec(),
    }
}

#[test]
fn listing_of_a_team_counts_and_averages() {
    let info = prefab_team_info(team("venusaur_team", &[50, 52, 54]));
    assert_eq!(info.id, "venusaur_team");
    assert_eq!(info.name, "venusaur_team team");
    assert_eq!(info.description, "about venusaur_team");
    assert_eq!(info.pokemon_count, 3);
    assert_eq!(info.average_level, 52);
    assert_eq!(prefab_team_info(team("a", &[7])).average_level, 7);
    assert_eq!(prefab_team_info(team("a", &[10, 11])).average_level, 10);
}

#[test]
fn average_is_the_sum_of_the_levels_by_their_number() {
    let info = prefab_team_info(team("strong", &[60, 60, 60, 60, 60, 60]));
    assert_eq!(info.pokemon_count, 6);
    assert_eq!(info.average_level, 60);
    assert_eq!(prefab_team_info(team("a", &[100, 100, 56])).average_level, 85);
    assert_eq!(prefab_team_info(team("a", &[255; 300])).average_level, 255);
    assert_eq!(prefab_team_info(team("a", &[1, 2])).average_level, 1);
}

#[test]
fn teams_are_listed_in_order() {
    let infos = get_available_teams(vec![team("a", &[1]), team("b", &[2, 4]), team("c", &[9, 9, 9])]);
    let rows: Vec<(&str, usize, u8)> =
        infos.iter().map(|i| (i.id.as_str(), i.pokemon_count, i.average_level)).collect();
    assert_eq!(rows, vec![("a", 1, 1), ("b", 2, 3), ("c", 3, 9)]);
    assert!(get_available_teams(vec![]).is_empty());
}

// A stand-in for the engine's builder. It knows every species but
// `Missingno` and every move but `Glitch`, has one ready-made team, and
// counts how often it is asked.
struct TestBuilder {
    lookups: Cell<usize>,
    built: Cell<usize>,
    teams: Vec<(&'static str, Vec<u8>)>,
}

impl TestBuilder {
    fn new() -> Self {
        TestBuilder {
            lookups: Cell::new(0),
            built: Cell::new(0),
            teams: vec![("venusaur_team", vec![60, 58, 56])],
        }
    }
}

fn side(id: &str, name: &str) -> BattlePlayer {
    BattlePlayer {
        player_id: id.to_string(),
        player_name: name.to_string(),
        team: vec![],
        active_pokemon_index: 0,
    }
}

fn fresh_battle(battle_id: &str, first: BattlePlayer, second: BattlePlayer) -> BattleState {
    BattleState {
        battle_id: battle_id.to_string(),
        players: [first, second],
        turn_number: 1,
        game_state: GameState::WaitingForActions,
        action_queue: [None, None],
        engine_data: String::new(),
    }
}

impl BattleBuilder for TestBuilder {
    fn lookup(&self, entry: &TeamPokemon) -> EntryLookup {
        self.lookups.set(self.lookups.get() + 1);
        EntryLookup {
            species_known: entry.species != "Missingno",
            moves_known: entry.moves.iter().all(|m| m != "Glitch"),
        }
    }

    fn build_battle(
        &self,
        plan: &BattlePlan,
        player1_team: &Vec<TeamPokemon>,
        player2_team: &Vec<TeamPokemon>,
    ) -> BattleState {
        self.built.set(self.built.get() + 1);
        assert!((1..=6).contains(&player1_team.len()) && (1..=6).contains(&player2_team.len()));
        fresh_battle(
            &plan.battle_id,
            side(&plan.player1_id, &plan.player1_name),
            side(&plan.player2_id, &plan.player2_name),
        )
    }

    fn check_prefab_team(&self, team_id: &str) -> Result<(), String> {
        if self.teams.iter().any(|(id, _)| *id == team_id) {
            Ok(())
        } else {
            Err(format!("Unknown team: {}", team_id))
        }
    }

    fn build_mvp_battle(
        &self,
        battle_id: &String,
        player_id: &str,
        player_name: &String,
        team_id: &str,
        difficulty: &str,
    ) -> Result<BattleState, String> {
        self.built.set(self.built.get() + 1);
        if team_id == "cursed_team" {
            return Err("No opponent can be made".to_string());
        }
        Ok(fresh_battle(
            battle_id,
            side(player_id, player_name),
            side("npc", &format!("Gym Leader ({})", difficulty)),
        ))
    }

    fn prefab_teams(&self) -> Vec<PrefabTeam> {
        self.teams.iter().map(|(id, levels)| team(id, levels)).collect()
    }
}

fn request(first: Vec<TeamPokemon>, second: Vec<TeamPokemon>) -> CreateBattleRequest {
    CreateBattleRequest {
        player1_id: PlayerId("alice".to_string()),
        player2_id: PlayerId("bob".to_string()),
        player1_team: first,
        player2_team: second,
    }
}

#[test]
fn battle_is_built_from_two_rosters_that_pass() {
    let builder = TestBuilder::new();
    let state = create_battle(
        &builder,
        "id-1".to_string(),
        PlayerId("alice".to_string()),
        &roster(2),
        PlayerId("bob".to_string()),
        &roster(3),
    )
    .unwrap();
    assert_eq!(state.battle_id, "id-1");
    assert_eq!(state.players[0].player_name, "Player alice");
    assert_eq!(state.players[1].player_id, "bob");
    assert_eq!(builder.lookups.get(), 5);
    assert_eq!(builder.built.get(), 1);
}

#[test]
fn engine_is_not_asked_about_a_roster_of_a_size_that_is_not_allowed() {
    let builder = TestBuilder::new();
    let r = create_battle(
        &builder,
        "id".to_string(),
        PlayerId("alice".to_string()),
        &roster(7),
        PlayerId("bob".to_string()),
        &roster(1),
    );
    assert_eq!(validation_message(r), "Team cannot have more than 6 Pokemon");
    assert_eq!(builder.lookups.get(), 0);
    let r = create_battle(
        &builder,
        "id".to_string(),
        PlayerId("alice".to_string()),
        &roster(2),
        PlayerId("bob".to_string()),
        &roster(0),
    );
    assert_eq!(validation_message(r), "Team cannot be empty");
    assert_eq!(builder.lookups.get(), 2);
    assert_eq!(builder.built.get(), 0);
}

#[test]
fn creation_with_a_roster_out_of_bounds_fails_validation_and_stores_nothing() {
    let builder = TestBuilder::new();
    let mut handler = BattleHandler::new(MemoryDb::new());
    let cases = vec![
        (roster(7), roster(1), "Team cannot have more than 6 Pokemon"),
        (roster(0), roster(1), "Team cannot be empty"),
        (roster(1), roster(7), "Team cannot have more than 6 Pokemon"),
        (roster(1), roster(0), "Team cannot be empty"),
        (vec![entry("Pikachu", 0, 2)], roster(1), "Invalid level 0 for Pikachu"),
        (vec![entry("Pikachu", 101, 2)], roster(1), "Invalid level 101 for Pikachu"),
        (roster(1), vec![entry("Mew", 0, 2)], "Invalid level 0 for Mew"),
        (roster(1), vec![entry("Mew", 101, 2)], "Invalid level 101 for Mew"),
        (vec![entry("Missingno", 5, 2)], roster(1), "Species data not found for Missingno"),
        (roster(1), vec![entry("Pikachu", 5, 5)], "Pokemon must have 1-4 moves"),
    ];
    for (first, second, message) in cases {
        let r = handler.create_battle(&builder, request(first, second), 10);
        assert_eq!(validation_message(r), message);
    }
    let mut glitch = entry("Pikachu", 5, 1);
    glitch.moves = vec!["Glitch".to_string()];
    let r = handler.create_battle(&builder, request(vec![glitch], roster(1)), 10);
    assert_eq!(validation_message(r), "Move data not found for Pikachu");
    assert_eq!(builder.built.get(), 0);
    assert_eq!(handler.db.len(), 0);
}

#[test]
fn created_battle_is_stored_and_shown_to_the_first_side() {
    let builder = TestBuilder::new();
    let mut handler = BattleHandler::new(MemoryDb::new());
    let response = handler.create_battle(&builder, request(roster(1), roster(6)), 33).unwrap();
    assert_eq!(response.status, "Battle created successfully");
    assert_eq!(response.battle_state.battle_id, response.battle_id);
    assert_eq!(response.battle_state.turn_number, 1);
    assert!(response.battle_state.can_act);
    assert_eq!(response.battle_state.opponent_info.player_name, "Player bob");
    assert_eq!((response.battle_id.0 >> 76) & 0xf, 4, "the identifier is a random one");
    let record = handler.load_battle(response.battle_id).unwrap();
    assert_eq!(record.player1_id, PlayerId("alice".to_string()));
    assert_eq!(record.player2_id, PlayerId("bob".to_string()));
    assert_eq!(record.battle_state.battle_id, response.battle_id.to_string());
    assert_eq!((record.created_at, record.last_updated, record.version), (33, 33, 0));
    assert!(record.turn_logs.is_empty());
    let other = handler.create_battle(&builder, request(roster(1), roster(1)), 34).unwrap();
    assert_ne!(other.battle_id, response.battle_id);
    assert_eq!(handler.db.len(), 2);
}

fn mvp_request(team_id: &str, opponent_id: &str) -> CreateMvpBattleRequest {
    CreateMvpBattleRequest {
        player_name: "Test Trainer".to_string(),
        team_id: team_id.to_string(),
        opponent_id: opponent_id.to_string(),
    }
}

#[test]
fn battle_against_an_automated_opponent_is_recorded_for_player_1_and_npc() {
    let builder = TestBuilder::new();
    let mut handler = BattleHandler::new(MemoryDb::new());
    let response = handler
        .create_mvp_battle(&builder, mvp_request("venusaur_team", "gym_leader_easy"), 70)
        .unwrap();
    assert_eq!(response.status, "Battle created successfully");
    assert_eq!(response.battle_state.battle_id, response.battle_id);
    assert_eq!(response.battle_state.turn_number, 1);
    assert!(response.battle_state.can_act);
    assert_eq!(response.battle_state.opponent_info.player_name, "Gym Leader (easy)");
    let record = handler.load_battle(response.battle_id).unwrap();
    assert_eq!(record.player1_id, PlayerId("player_1".to_string()));
    assert_eq!(record.player2_id, PlayerId("npc".to_string()));
    assert_eq!(record.battle_state.players[0].player_name, "Test Trainer");
    assert_eq!(record.battle_state.battle_id, response.battle_id.to_string());
    assert_eq!((record.created_at, record.last_updated), (70, 70));
}

#[test]
fn battle_that_cannot_be_built_fails_validation() {
    let mut builder = TestBuilder::new();
    builder.teams.push(("cursed_team", vec![1]));
    let mut handler = BattleHandler::new(MemoryDb::new());
    let r = handler.create_mvp_battle(&builder, mvp_request("nothing", "gym_leader_easy"), 70);
    assert_eq!(validation_message(r), "Unknown team: nothing");
    let r = handler.create_mvp_battle(&builder, mvp_request("nothing", "champion"), 70);
    assert_eq!(validation_message(r), "Unknown team: nothing");
    let r = handler.create_mvp_battle(&builder, mvp_request("venusaur_team", "champion"), 70);
    assert_eq!(validation_message(r), "Unknown opponent: champion");
    assert_eq!(builder.built.get(), 0);
    let r = handler.create_mvp_battle(&builder, mvp_request("cursed_team", "gym_leader_hard"), 70);
    assert_eq!(validation_message(r), "No opponent can be made");
    assert_eq!(handler.db.len(), 0);
    let state = create_mvp_battle(
        &builder,
        "id".to_string(),
        "Red".to_string(),
        "venusaur_team",
        "gym_leader_medium",
    )
    .unwrap();
    assert_eq!(state.players[1].player_name, "Gym Leader (medium)");
}

#[test]
fn teams_of_the_engine_are_listed_by_the_service() {
    let mut builder = TestBuilder::new();
    let handler = BattleHandler::new(MemoryDb::new());
    let response = handler.get_available_teams(&builder).unwrap();
    let rows: Vec<(&str, usize, u8)> =
        response.teams.iter().map(|i| (i.id.as_str(), i.pokemon_count, i.average_level)).collect();
    assert_eq!(rows, vec![("venusaur_team", 3, 58)]);
    builder.teams.push(("empty_team", vec![]));
    match handler.get_available_teams(&builder) {
        Err(ApiError::InternalError { message }) => {
            assert_eq!(message, "Ready-made team without an average level")
        },
        other => panic!("expected InternalError, got {:?}", other),
    }
}

#[test]
fn average_is_defined_unless_the_team_is_empty() {
    assert!(average_is_defined(&vec![1]));
    assert!(average_is_defined(&vec![100; 6]));
    assert!(average_is_defined(&vec![1; 256]));
    assert!(!average_is_defined(&vec![]));
}
