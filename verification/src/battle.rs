//! The parts of a battle that the session layer reads and fills.
//!
//! The resolution engine owns the full battle state. What this crate needs of
//! it is held here as plain values: the phase, the turn number, the two
//! pending-action slots and, for each side, the roster with the facts that a
//! player may be shown. Everything else travels along unread in
//! [`BattleState::engine_data`].

use crate::text::clone_optional_string;
use vstd::prelude::*;

verus! {

/// The phase of a battle: who may act next, or how the battle ended.
#[derive(Debug, Clone, Copy, PartialEq, Eq, Structural)]
pub enum GameState {
    /// Both sides owe an action for the coming turn.
    WaitingForActions,
    /// Side 0 must replace a fainted Pokémon.
    WaitingForPlayer1Replacement,
    /// Side 1 must replace a fainted Pokémon.
    WaitingForPlayer2Replacement,
    /// Both sides must replace a fainted Pokémon.
    WaitingForBothReplacements,
    /// Side 0 has won.
    Player1Win,
    /// Side 1 has won.
    Player2Win,
    /// Neither side has won.
    Draw,
}

impl GameState {
    /// A terminal phase accepts no further action.
    pub open spec fn is_terminal(self) -> bool {
        self is Player1Win || self is Player2Win || self is Draw
    }

    /// Whether the battle has ended.
    pub fn is_over(&self) -> (r: bool)
        ensures
            r == self.is_terminal(),
    {
        match self {
            GameState::Player1Win | GameState::Player2Win | GameState::Draw => true,
            _ => false,
        }
    }

    /// The phase's name as a sequence of characters.
    pub open spec fn name_spec(self) -> Seq<char> {
        match self {
            GameState::WaitingForActions => "WaitingForActions"@,
            GameState::WaitingForPlayer1Replacement => "WaitingForPlayer1Replacement"@,
            GameState::WaitingForPlayer2Replacement => "WaitingForPlayer2Replacement"@,
            GameState::WaitingForBothReplacements => "WaitingForBothReplacements"@,
            GameState::Player1Win => "Player1Win"@,
            GameState::Player2Win => "Player2Win"@,
            GameState::Draw => "Draw"@,
        }
    }

    /// The phase's name, as it appears in messages.
    pub fn name(&self) -> (r: String)
        ensures
            r@ == self.name_spec(),
    {
        match self {
            GameState::WaitingForActions => String::from_str("WaitingForActions"),
            GameState::WaitingForPlayer1Replacement => String::from_str(
                "WaitingForPlayer1Replacement",
            ),
            GameState::WaitingForPlayer2Replacement => String::from_str(
                "WaitingForPlayer2Replacement",
            ),
            GameState::WaitingForBothReplacements => String::from_str(
                "WaitingForBothReplacements",
            ),
            GameState::Player1Win => String::from_str("Player1Win"),
            GameState::Player2Win => String::from_str("Player2Win"),
            GameState::Draw => String::from_str("Draw"),
        }
    }
}

/// An action that a side submits for the coming resolution.
#[derive(Debug, Clone, Copy, PartialEq, Eq, Structural)]
pub enum PlayerAction {
    /// Use the move in the given slot of the active Pokémon.
    UseMove { move_index: usize },
    /// Send out the Pokémon in the given roster slot.
    SwitchPokemon { team_index: usize },
    /// Give the battle up.
    Forfeit,
}

impl PlayerAction {
    /// Whether the action sends another Pokémon out.
    pub open spec fn is_switch_spec(self) -> bool {
        self is SwitchPokemon
    }

    /// Whether the action sends another Pokémon out.
    pub fn is_switch(&self) -> (r: bool)
        ensures
            r == self.is_switch_spec(),
    {
        match self {
            PlayerAction::SwitchPokemon { .. } => true,
            _ => false,
        }
    }
}

/// What a move slot holds, as a mathematical value.
pub struct MoveModel {
    pub move_: Seq<char>,
    pub pp: u8,
    pub max_pp: u8,
}

/// A move that a Pokémon knows, with the uses left.
#[derive(Debug)]
pub struct MoveInstance {
    pub move_: String,
    pub pp: u8,
    pub max_pp: u8,
}

impl View for MoveInstance {
    type V = MoveModel;

    open spec fn view(&self) -> MoveModel {
        MoveModel { move_: self.move_@, pp: self.pp, max_pp: self.max_pp }
    }
}

impl DeepView for MoveInstance {
    type V = MoveModel;

    open spec fn deep_view(&self) -> MoveModel {
        self@
    }
}

impl Clone for MoveInstance {
    fn clone(&self) -> (r: Self)
        ensures
            r@ == self@,
    {
        MoveInstance { move_: self.move_.clone(), pp: self.pp, max_pp: self.max_pp }
    }
}

/// The battle statistics of a Pokémon other than its hit points.
#[derive(Debug, Clone, Copy, PartialEq, Eq, Structural)]
pub struct CurrentStats {
    pub attack: u16,
    pub defense: u16,
    pub sp_attack: u16,
    pub sp_defense: u16,
    pub speed: u16,
}

/// A Pokémon of a roster, as a mathematical value.
pub struct PokemonModel {
    pub name: Seq<char>,
    pub species: Seq<char>,
    pub level: u8,
    pub current_hp: u16,
    pub max_hp: u16,
    pub stats: CurrentStats,
    pub moves: Seq<Option<MoveModel>>,
    pub status: Option<Seq<char>>,
    pub fainted: bool,
}

/// A Pokémon of a roster.
#[derive(Debug)]
pub struct PokemonInst {
    pub name: String,
    pub species: String,
    pub level: u8,
    pub current_hp: u16,
    pub max_hp: u16,
    pub stats: CurrentStats,
    pub moves: Vec<Option<MoveInstance>>,
    pub status: Option<String>,
    pub fainted: bool,
}

impl View for PokemonInst {
    type V = PokemonModel;

    open spec fn view(&self) -> PokemonModel {
        PokemonModel {
            name: self.name@,
            species: self.species@,
            level: self.level,
            current_hp: self.current_hp,
            max_hp: self.max_hp,
            stats: self.stats,
            moves: self.moves.deep_view(),
            status: self.status.deep_view(),
            fainted: self.fainted,
        }
    }
}

impl DeepView for PokemonInst {
    type V = PokemonModel;

    open spec fn deep_view(&self) -> PokemonModel {
        self@
    }
}

/// One side of a battle, as a mathematical value.
pub struct PlayerModel {
    pub player_id: Seq<char>,
    pub player_name: Seq<char>,
    pub team: Seq<Option<PokemonModel>>,
    pub active_pokemon_index: nat,
}

impl PlayerModel {
    /// The Pokémon that is out, if the active slot exists and is filled.
    pub open spec fn active_pokemon(self) -> Option<PokemonModel> {
        if self.active_pokemon_index < self.team.len() {
            self.team[self.active_pokemon_index as int]
        } else {
            None
        }
    }

    /// The bench: the roster slots other than the active one.
    pub open spec fn bench(self) -> Seq<Option<PokemonModel>> {
        if self.active_pokemon_index < self.team.len() {
            self.team.remove(self.active_pokemon_index as int)
        } else {
            self.team
        }
    }
}

/// One side of a battle.
#[derive(Debug)]
pub struct BattlePlayer {
    pub player_id: String,
    pub player_name: String,
    pub team: Vec<Option<PokemonInst>>,
    pub active_pokemon_index: usize,
}

impl View for BattlePlayer {
    type V = PlayerModel;

    open spec fn view(&self) -> PlayerModel {
        PlayerModel {
            player_id: self.player_id@,
            player_name: self.player_name@,
            team: self.team.deep_view(),
            active_pokemon_index: self.active_pokemon_index as nat,
        }
    }
}

impl DeepView for BattlePlayer {
    type V = PlayerModel;

    open spec fn deep_view(&self) -> PlayerModel {
        self@
    }
}

impl BattlePlayer {
    /// The Pokémon that is out, if the active slot exists and is filled.
    pub fn active_pokemon(&self) -> (r: Option<&PokemonInst>)
        ensures
            r.deep_view() == self@.active_pokemon(),
    {
        if self.active_pokemon_index < self.team.len() {
            self.team[self.active_pokemon_index].as_ref()
        } else {
            None
        }
    }
}

/// A battle, as a mathematical value. `players` and `action_queue` have one
/// entry for each of the two sides.
pub struct BattleModel {
    pub battle_id: Seq<char>,
    pub players: Seq<PlayerModel>,
    pub turn_number: u32,
    pub game_state: GameState,
    pub action_queue: Seq<Option<PlayerAction>>,
    pub engine_data: Seq<char>,
}

/// A battle as the session layer sees it.
#[derive(Debug)]
pub struct BattleState {
    pub battle_id: String,
    pub players: [BattlePlayer; 2],
    pub turn_number: u32,
    pub game_state: GameState,
    /// The pending action of each side, empty until that side has submitted.
    pub action_queue: [Option<PlayerAction>; 2],
    /// The resolution engine's own record of the battle. It is carried
    /// along and never read here.
    pub engine_data: String,
}

impl View for BattleState {
    type V = BattleModel;

    open spec fn view(&self) -> BattleModel {
        BattleModel {
            battle_id: self.battle_id@,
            players: Seq::new(2, |i: int| self.players[i]@),
            turn_number: self.turn_number,
            game_state: self.game_state,
            action_queue: self.action_queue@,
            engine_data: self.engine_data@,
        }
    }
}

impl DeepView for BattleState {
    type V = BattleModel;

    open spec fn deep_view(&self) -> BattleModel {
        self@
    }
}

impl BattleModel {
    /// Both sides are present with their slots.
    pub open spec fn well_formed(self) -> bool {
        self.players.len() == 2 && self.action_queue.len() == 2
    }
}

impl Clone for PokemonInst {
    fn clone(&self) -> (r: Self)
        ensures
            r@ == self@,
    {
        let mut moves: Vec<Option<MoveInstance>> = Vec::new();
        let mut i: usize = 0;
        while i < self.moves.len()
            invariant
                i <= self.moves.len(),
                moves.len() == i,
                forall|k: int| 0 <= k < i ==> moves[k].deep_view() == self.moves[k].deep_view(),
            decreases self.moves.len() - i,
        {
            let slot = match &self.moves[i] {
                Some(m) => Some(m.clone()),
                None => None,
            };
            moves.push(slot);
            i += 1;
        }
        assert(moves.deep_view() =~= self.moves.deep_view());
        PokemonInst {
            name: self.name.clone(),
            species: self.species.clone(),
            level: self.level,
            current_hp: self.current_hp,
            max_hp: self.max_hp,
            stats: self.stats,
            moves,
            status: clone_optional_string(&self.status),
            fainted: self.fainted,
        }
    }
}

impl Clone for BattlePlayer {
    fn clone(&self) -> (r: Self)
        ensures
            r@ == self@,
    {
        let mut team: Vec<Option<PokemonInst>> = Vec::new();
        let mut i: usize = 0;
        while i < self.team.len()
            invariant
                i <= self.team.len(),
                team.len() == i,
                forall|k: int| 0 <= k < i ==> team[k].deep_view() == self.team[k].deep_view(),
            decreases self.team.len() - i,
        {
            let slot = match &self.team[i] {
                Some(p) => Some(p.clone()),
                None => None,
            };
            team.push(slot);
            i += 1;
        }
        assert(team.deep_view() =~= self.team.deep_view());
        BattlePlayer {
            player_id: self.player_id.clone(),
            player_name: self.player_name.clone(),
            team,
            active_pokemon_index: self.active_pokemon_index,
        }
    }
}

impl Clone for BattleState {
    fn clone(&self) -> (r: Self)
        ensures
            r@ == self@,
    {
        let r = BattleState {
            battle_id: self.battle_id.clone(),
            players: [self.players[0].clone(), self.players[1].clone()],
            turn_number: self.turn_number,
            game_state: self.game_state,
            action_queue: self.action_queue,
            engine_data: self.engine_data.clone(),
        };
        assert(r@.players =~= self@.players);
        r
    }
}

} // verus!
