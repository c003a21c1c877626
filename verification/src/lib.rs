//! Turn-based battle sessions between two sides, one of which may be
//! automated.
//!
//! The rules of combat belong to a resolution engine outside this crate.
//! Here is what makes that engine usable as a session service:
//!
//! - [`resolution`]: what is asked of the engine, before and in a battle;
//! - [`engine`]: whether a submission is admitted in the phase of the
//!   battle, what each player is shown, and what is checked before a battle
//!   is built;
//! - [`ticks`]: the game-tick driver, which decides how often the engine
//!   resolves a turn after a submission and keeps its events;
//! - [`turn_log`]: the append-only log of the events of each turn;
//! - [`database`]: the session store, with its conditional writes, and a
//!   store in memory;
//! - [`handlers`]: the operations of the service over a store and an
//!   engine;
//! - [`record`], [`router`]: the stored form of a session and the routes of
//!   a request;
//! - [`laws`]: what holds of all of this together.
//!
//! Nothing is assumed of the engine's answers: every function that asks
//! the engine, or takes what it said, is verified for whatever it may say.

pub mod battle;
pub mod database;
pub mod engine;
pub mod errors;
pub mod handlers;
pub mod ids;
pub mod laws;
pub mod numbers;
pub mod record;
pub mod resolution;
pub mod router;
pub mod text;
pub mod ticks;
pub mod turn_log;
pub mod types;

pub use battle::{BattleState, GameState, PlayerAction};
pub use errors::{ApiError, ApiErrorResponse};
pub use handlers::BattleHandler;
pub use ids::{BattleId, PlayerId};
pub use types::{
    ApiMoveView, ApiOpponentView, ApiPokemonDetail, ApiPokemonSummary, ApiTeamView,
    AvailableTeamsResponse, CreateBattleRequest, CreateBattleResponse, CreateMvpBattleRequest,
    CreateMvpBattleResponse, GetBattleEventsRequest, GetBattleEventsResponse, GetBattleRequest,
    GetBattleResponse, GetBattleStateRequest, GetBattleStateResponse, GetTeamInfoRequest,
    GetTeamInfoResponse, GetValidActionsRequest, GetValidActionsResponse, NpcOpponentInfo,
    NpcOpponentsResponse, PlayerSummary, PokemonSummary, PrefabTeamInfo, StoredBattle,
    SubmitActionRequest, SubmitActionResponse, TeamPokemon, TurnLog,
};
