//! The game-tick driver: how often the resolution engine is asked to
//! resolve a turn, and what is kept of its events.
//!
//! [`process_battle_ticks`] ([`processing`]) runs the driver against an
//! engine. The driver itself, [`TickDriver`], calls no engine: it holds the
//! battle as it stood after the last resolution and decides the next step,
//! and can be used step by step where the engine cannot be handed over:
//!
//! 1. [`TickDriver::start`] with the battle after the submission;
//! 2. [`TickDriver::next_step`] with the engine's word on readiness;
//! 3. on [`TickStep::Resolve`], one resolution by the engine, then
//!    [`TickDriver::record_turn`] with the battle and the formatted events
//!    that came of it, and back to 2;
//! 4. on [`TickStep::Finished`], [`TickDriver::finish`];
//!    on [`TickStep::Exceeded`], [`TickDriver::ceiling_error`].
//!
//! What a whole run comes to, under any answers of the engine, is
//! [`run`].

pub mod processing;

pub use processing::{
    asked_of, ceiling_reached, fresh, no_such_side, process_battle_ticks, sides_exist,
    ticks_result, ticks_view, Answer, Asked, EngineAnswers,
};

use crate::battle::{BattleModel, BattleState, GameState};
use crate::errors::{ApiError, ErrorModel};
use vstd::prelude::*;

verus! {

/// The most resolutions that one submission may set off.
pub const MAX_ITERATIONS: u32 = 100;

/// What the driver asks for next.
#[derive(Debug, Clone, Copy, PartialEq, Eq, Structural)]
pub enum TickStep {
    /// The engine is to resolve one turn.
    Resolve,
    /// Input from a player is needed, or the battle has ended.
    Finished,
    /// The battle is still ready for resolution after the ceiling of
    /// resolutions: the operation fails.
    Exceeded,
}

/// The events of one resolution, with the number of the turn that was
/// resolved, as a mathematical value.
pub struct ResolvedTurnModel {
    pub turn_number: u32,
    pub events: Seq<Seq<char>>,
}

/// The events of one resolution, with the number of the turn that was
/// resolved.
#[derive(Debug)]
pub struct ResolvedTurn {
    /// The turn number of the battle before the resolution.
    pub turn_number: u32,
    /// The formatted events, in order, without the empty ones.
    pub events: Vec<String>,
}

impl View for ResolvedTurn {
    type V = ResolvedTurnModel;

    open spec fn view(&self) -> ResolvedTurnModel {
        ResolvedTurnModel { turn_number: self.turn_number, events: self.events.deep_view() }
    }
}

impl DeepView for ResolvedTurn {
    type V = ResolvedTurnModel;

    open spec fn deep_view(&self) -> ResolvedTurnModel {
        self@
    }
}

/// The driver's state, as a mathematical value.
pub struct DriverModel {
    pub state: BattleModel,
    pub iterations: u32,
    pub turns: Seq<ResolvedTurnModel>,
}

/// The state of the driver between two steps.
#[derive(Debug)]
pub struct TickDriver {
    /// The battle as it stands.
    pub state: BattleState,
    /// How many resolutions have been recorded, up to the ceiling.
    pub iterations: u32,
    /// The events of each resolution, in order.
    pub turns: Vec<ResolvedTurn>,
}

impl View for TickDriver {
    type V = DriverModel;

    open spec fn view(&self) -> DriverModel {
        DriverModel {
            state: self.state@,
            iterations: self.iterations,
            turns: self.turns.deep_view(),
        }
    }
}

/// Whether a turn may be resolved: the engine reports the battle ready and,
/// while both sides owe an action, both pending-action slots are filled.
pub open spec fn ready_for_resolution(state: BattleModel, engine_ready: bool) -> bool {
    engine_ready && (state.game_state is WaitingForActions ==> state.action_queue[0] is Some
        && state.action_queue[1] is Some)
}

/// The next step. A battle that has ended, or that is not ready, needs no
/// further resolution. A battle that is ready is resolved, unless the
/// ceiling has been reached.
pub open spec fn tick_step(state: BattleModel, iterations: u32, engine_ready: bool) -> TickStep {
    if state.game_state.is_terminal() {
        TickStep::Finished
    } else if !ready_for_resolution(state, engine_ready) {
        TickStep::Finished
    } else if iterations >= MAX_ITERATIONS {
        TickStep::Exceeded
    } else {
        TickStep::Resolve
    }
}

/// The event texts that are kept: all but the empty ones, in order.
pub open spec fn kept_events(formatted: Seq<Seq<char>>) -> Seq<Seq<char>> {
    formatted.filter(|text: Seq<char>| text.len() > 0)
}

/// The driver after one resolution has been taken in: the battle as the
/// engine left it, one resolution more on the count (which stops at the
/// ceiling), and the kept events filed under the number of the turn that
/// was resolved.
pub open spec fn recorded(
    driver: DriverModel,
    state_after: BattleModel,
    formatted: Seq<Seq<char>>,
) -> DriverModel {
    DriverModel {
        state: state_after,
        iterations: if driver.iterations < MAX_ITERATIONS {
            (driver.iterations + 1) as u32
        } else {
            driver.iterations
        },
        turns: driver.turns.push(
            ResolvedTurnModel {
                turn_number: driver.state.turn_number,
                events: kept_events(formatted),
            },
        ),
    }
}

/// What the engine answers when it is asked for one resolution: the battle
/// as it leaves it, the formatted events, and whether it reports the battle
/// ready for a further resolution.
pub struct Resolution {
    pub state_after: BattleModel,
    pub formatted: Seq<Seq<char>>,
    pub ready_after: bool,
}

/// A whole run of the driver: from `driver`, with the engine's word on
/// readiness, and with `script` holding what the engine answers to each
/// resolution that is asked of it, in order. The run takes answers from
/// the script for as long as the next step is a resolution, and ends with
/// the first step that is none, or, still asking, when the script is used
/// up. The result is the driver at the end and the step on which it ended.
pub open spec fn run(driver: DriverModel, engine_ready: bool, script: Seq<Resolution>) -> (
    DriverModel,
    TickStep,
)
    decreases script.len(),
{
    let step = tick_step(driver.state, driver.iterations, engine_ready);
    if step == TickStep::Resolve && script.len() > 0 {
        run(
            recorded(driver, script[0].state_after, script[0].formatted),
            script[0].ready_after,
            script.drop_first(),
        )
    } else {
        (driver, step)
    }
}

/// How many answers of the script a run takes.
pub open spec fn resolutions_taken(
    driver: DriverModel,
    engine_ready: bool,
    script: Seq<Resolution>,
) -> nat
    decreases script.len(),
{
    let step = tick_step(driver.state, driver.iterations, engine_ready);
    if step == TickStep::Resolve && script.len() > 0 {
        1 + resolutions_taken(
            recorded(driver, script[0].state_after, script[0].formatted),
            script[0].ready_after,
            script.drop_first(),
        )
    } else {
        0
    }
}

/// Whether no event of any of the resolutions is empty.
#[verifier::opaque]
pub open spec fn no_empty_events(turns: Seq<ResolvedTurnModel>) -> bool {
    forall|k: int, j: int|
        0 <= k < turns.len() && 0 <= j < turns[k].events.len() ==> (
        #[trigger] turns[k].events[j]).len() > 0
}

/// All events of a run of resolutions, in the order in which they came.
pub open spec fn all_events(turns: Seq<ResolvedTurnModel>) -> Seq<Seq<char>>
    decreases turns.len(),
{
    if turns.len() == 0 {
        Seq::empty()
    } else {
        all_events(turns.drop_last()) + turns.last().events
    }
}

/// The event texts of a resolution without the empty ones.
pub fn keep_events(formatted: &Vec<String>) -> (kept: Vec<String>)
    ensures
        kept.deep_view() == kept_events(formatted.deep_view()),
{
    let ghost nonempty = |text: Seq<char>| text.len() > 0;
    let ghost all = formatted.deep_view();
    let mut kept: Vec<String> = Vec::new();
    let mut i: usize = 0;
    while i < formatted.len()
        invariant
            i <= formatted.len(),
            all == formatted.deep_view(),
            nonempty == |text: Seq<char>| text.len() > 0,
            kept.deep_view() == all.take(i as int).filter(nonempty),
        decreases formatted.len() - i,
    {
        let ghost before = kept.deep_view();
        proof {
            reveal(Seq::filter);
            assert(all.take(i + 1).drop_last() =~= all.take(i as int));
            assert(all.take(i + 1).last() == formatted[i as int]@);
        }
        if !formatted[i].as_str().is_empty() {
            kept.push(formatted[i].clone());
            assert(kept.deep_view() =~= before.push(formatted[i as int]@));
        }
        i += 1;
    }
    assert(all.take(i as int) =~= all);
    kept
}

impl TickDriver {
    /// The driver before the first step, for the battle as it stands once
    /// the submission and the automated sides' actions are in their slots.
    pub fn start(state: BattleState) -> (driver: Self)
        ensures
            driver@ == (DriverModel { state: state@, iterations: 0, turns: Seq::empty() }),
            driver.state == state,
    {
        let driver = TickDriver { state, iterations: 0, turns: Vec::new() };
        assert(driver.turns.deep_view() =~= Seq::empty());
        driver
    }

    /// Decides the next step. `engine_ready` is the resolution engine's word
    /// on whether the battle, as the driver holds it, is ready for
    /// resolution.
    pub fn next_step(&self, engine_ready: bool) -> (step: TickStep)
        ensures
            step == tick_step(self@.state, self@.iterations, engine_ready),
    {
        if self.state.game_state.is_over() {
            return TickStep::Finished;
        }
        if !engine_ready {
            return TickStep::Finished;
        }
        let both_owe = match self.state.game_state {
            GameState::WaitingForActions => true,
            _ => false,
        };
        let slot_empty = self.state.action_queue[0].is_none()
            || self.state.action_queue[1].is_none();
        if both_owe && slot_empty {
            return TickStep::Finished;
        }
        if self.iterations >= MAX_ITERATIONS {
            TickStep::Exceeded
        } else {
            TickStep::Resolve
        }
    }

    /// Takes in one resolution: the battle as the engine left it and the
    /// formatted events, in the order in which the engine produced them.
    /// Empty texts are dropped. The events are filed under the number of the
    /// turn that was resolved, that is the turn number before the
    /// resolution.
    pub fn record_turn(&mut self, state_after: BattleState, formatted: &Vec<String>)
        ensures
            final(self)@ == recorded(old(self)@, state_after@, formatted.deep_view()),
            final(self).state == state_after,
    {
        let ghost before = self.turns.deep_view();
        let turn = ResolvedTurn {
            turn_number: self.state.turn_number,
            events: keep_events(formatted),
        };
        self.turns.push(turn);
        assert(self.turns.deep_view() =~= before.push(turn@));
        self.state = state_after;
        if self.iterations < MAX_ITERATIONS {
            self.iterations = self.iterations + 1;
        }
    }

    /// The battle as it stands and the events of each resolution, once no
    /// further step is needed.
    pub fn finish(self) -> (r: (BattleState, Vec<ResolvedTurn>))
        ensures
            r.0 == self.state,
            r.0@ == self@.state,
            r.1.deep_view() == self@.turns,
    {
        (self.state, self.turns)
    }

    /// The error of an operation that reached the ceiling with the battle
    /// still ready for resolution.
    pub fn ceiling_error() -> (e: ApiError)
        ensures
            e@ == (ErrorModel::InternalError {
                message: "Battle processing exceeded maximum iterations"@,
            }),
    {
        ApiError::InternalError {
            message: String::from_str("Battle processing exceeded maximum iterations"),
        }
    }
}

} // verus!
