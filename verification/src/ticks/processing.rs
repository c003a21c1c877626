//! The driver run against an engine: what the engine is asked, and what
//! the run comes to under its answers.

use crate::battle::{BattleModel, BattleState, PlayerAction};
use crate::engine::admission::{apply_npc_actions, queue_with};
use crate::errors::{ApiError, ErrorModel};
use crate::resolution::ResolutionEngine;
use crate::ticks::{
    kept_events, no_empty_events, recorded, resolutions_taken, run, tick_step, DriverModel,
    Resolution, ResolvedTurn, ResolvedTurnModel, TickDriver, TickStep, MAX_ITERATIONS,
};
use vstd::prelude::*;

verus! {

/// The driver before the first step.
pub open spec fn fresh(state: BattleModel) -> DriverModel {
    DriverModel { state, iterations: 0, turns: Seq::empty() }
}

/// The answers of an engine in the course of one run of the driver: the
/// actions of the automated sides, the engine's first word on readiness,
/// and what it answered to each resolution.
pub struct EngineAnswers {
    pub npc_actions: Seq<(usize, PlayerAction)>,
    pub engine_ready: bool,
    pub script: Seq<Resolution>,
}

/// What an engine answered to one request for a resolution: the battle as
/// it left it, the formatted events, and, asked next, whether the battle is
/// ready for a further resolution.
pub struct Answer {
    pub state_after: BattleState,
    pub formatted: Vec<String>,
    pub ready_after: bool,
}

/// What an engine was asked, and what it answered, in the course of the
/// processing of a battle: the actions of the automated sides for the
/// battle as it was handed in; then, for the battle with those actions in
/// their slots, whether it is ready; then one resolution after another,
/// each of the battle as the resolution before left it, and each followed
/// by the question whether the battle is ready again.
pub struct Asked {
    pub npc_actions: Vec<(usize, PlayerAction)>,
    pub filled: BattleState,
    pub engine_ready: bool,
    pub script: Seq<Answer>,
}

impl Asked {
    /// The answers alone, by their views.
    pub open spec fn answers(self) -> EngineAnswers {
        EngineAnswers {
            npc_actions: self.npc_actions@,
            engine_ready: self.engine_ready,
            script: Seq::new(
                self.script.len(),
                |i: int|
                    Resolution {
                        state_after: self.script[i].state_after@,
                        formatted: self.script[i].formatted.deep_view(),
                        ready_after: self.script[i].ready_after,
                    },
            ),
        }
    }

    /// The battle of which resolution `i` was asked.
    pub open spec fn state_before(self, i: int) -> BattleState {
        if i <= 0 {
            self.filled
        } else {
            self.script[i - 1].state_after
        }
    }
}

/// Whether `asked` is what `engine` was asked and what it answered when the
/// battle `start` was processed: every answer is one that the engine gave
/// to the question that was put to it.
#[verifier::opaque]
pub open spec fn asked_of<E: ResolutionEngine>(
    engine: &E,
    start: BattleState,
    asked: Asked,
) -> bool {
    &&& call_ensures(E::collect_npc_actions, (engine, &start), asked.npc_actions)
    &&& sides_exist(asked.npc_actions@) ==> {
        &&& asked.filled@ == (BattleModel {
            action_queue: queue_with(start@.action_queue, asked.npc_actions@),
            ..start@
        })
        &&& call_ensures(
            E::ready_for_turn_resolution,
            (engine, &asked.filled),
            asked.engine_ready,
        )
        &&& forall|i: int|
            0 <= i < asked.script.len() ==> {
                &&& call_ensures(
                    E::resolve_turn,
                    (engine, &asked.state_before(i)),
                    ((#[trigger] asked.script[i]).state_after, asked.script[i].formatted),
                )
                &&& call_ensures(
                    E::ready_for_turn_resolution,
                    (engine, &asked.script[i].state_after),
                    asked.script[i].ready_after,
                )
            }
    }
}

/// Whether every action of the automated sides is for side 0 or side 1.
pub open spec fn sides_exist(npc_actions: Seq<(usize, PlayerAction)>) -> bool {
    forall|k: int| 0 <= k < npc_actions.len() ==> (#[trigger] npc_actions[k]).0 < 2
}

/// The error for an action of an automated side that names no side.
pub open spec fn no_such_side() -> ErrorModel {
    ErrorModel::InternalError { message: "Automated action for a side that does not exist"@ }
}

/// The error of a run that reached the ceiling.
pub open spec fn ceiling_reached() -> ErrorModel {
    ErrorModel::InternalError { message: "Battle processing exceeded maximum iterations"@ }
}

/// What the processing of a battle comes to, given the answers of the
/// engine: the battle and the events of each resolution, or the error that
/// ends the operation. There is no result where the answers do not make a
/// whole run: where the driver still asks for a resolution at their end, or
/// where they go on after its end.
///
/// The actions of the automated sides are placed in their slots first; an
/// action that names no side is an internal error. Then the driver runs
/// ([`run`]). A run that reaches the ceiling is an internal error.
pub open spec fn ticks_result(start: BattleModel, answers: EngineAnswers) -> Option<
    Result<(BattleModel, Seq<ResolvedTurnModel>), ErrorModel>,
> {
    if !sides_exist(answers.npc_actions) {
        Some(Err(no_such_side()))
    } else {
        let filled = BattleModel {
            action_queue: queue_with(start.action_queue, answers.npc_actions),
            ..start
        };
        let (end, step) = run(fresh(filled), answers.engine_ready, answers.script);
        let taken = resolutions_taken(fresh(filled), answers.engine_ready, answers.script);
        if taken != answers.script.len() {
            None
        } else {
            match step {
                TickStep::Resolve => None,
                TickStep::Finished => Some(Ok((end.state, end.turns))),
                TickStep::Exceeded => Some(Err(ceiling_reached())),
            }
        }
    }
}

/// The result of the processing of a battle, taken by its views.
pub open spec fn ticks_view(r: Result<(BattleState, Vec<ResolvedTurn>), ApiError>) -> Result<
    (BattleModel, Seq<ResolvedTurnModel>),
    ErrorModel,
> {
    match r {
        Ok((state, turns)) => Ok((state@, turns.deep_view())),
        Err(e) => Err(e@),
    }
}

/// A run that has used up its script and still asks for a resolution goes
/// on with the next answer.
proof fn lemma_run_goes_on(
    driver: DriverModel,
    engine_ready: bool,
    script: Seq<Resolution>,
    next: Resolution,
)
    requires
        run(driver, engine_ready, script).1 == TickStep::Resolve,
        resolutions_taken(driver, engine_ready, script) == script.len(),
    ensures
        ({
            let end = run(driver, engine_ready, script).0;
            let after = recorded(end, next.state_after, next.formatted);
            &&& run(driver, engine_ready, script.push(next)) == (
                after,
                tick_step(after.state, after.iterations, next.ready_after),
            )
            &&& resolutions_taken(driver, engine_ready, script.push(next)) == script.len() + 1
        }),
    decreases script.len(),
{
    let longer = script.push(next);
    let step = tick_step(driver.state, driver.iterations, engine_ready);
    if script.len() == 0 {
        let after = recorded(driver, next.state_after, next.formatted);
        assert(longer.drop_first() =~= Seq::<Resolution>::empty());
        assert(longer[0] == next);
        assert(run(after, next.ready_after, Seq::<Resolution>::empty()) == (
            after,
            tick_step(after.state, after.iterations, next.ready_after),
        ));
        assert(resolutions_taken(after, next.ready_after, Seq::<Resolution>::empty()) == 0);
    } else {
        // The run took the first answer, or it would have ended at once.
        assert(step == TickStep::Resolve);
        let second = recorded(driver, script[0].state_after, script[0].formatted);
        assert(longer.drop_first() =~= script.drop_first().push(next));
        assert(longer[0] == script[0]);
        lemma_run_goes_on(second, script[0].ready_after, script.drop_first(), next);
        assert(run(driver, engine_ready, longer) == run(
            second,
            script[0].ready_after,
            longer.drop_first(),
        ));
        assert(resolutions_taken(driver, engine_ready, longer) == 1 + resolutions_taken(
            second,
            script[0].ready_after,
            longer.drop_first(),
        ));
    }
}

/// Whether every action of the automated sides is for side 0 or side 1.
fn check_sides(npc_actions: &Vec<(usize, PlayerAction)>) -> (r: bool)
    ensures
        r == sides_exist(npc_actions@),
{
    let mut i: usize = 0;
    while i < npc_actions.len()
        invariant
            i <= npc_actions.len(),
            forall|k: int| 0 <= k < i ==> (#[trigger] npc_actions[k]).0 < 2,
        decreases npc_actions.len() - i,
    {
        if npc_actions[i].0 >= 2 {
            return false;
        }
        i += 1;
    }
    true
}

/// The questions of a run that has not begun are answered.
proof fn lemma_asked_begins<E: ResolutionEngine>(engine: &E, start: BattleState, asked: Asked)
    requires
        call_ensures(E::collect_npc_actions, (engine, &start), asked.npc_actions),
        sides_exist(asked.npc_actions@) ==> {
            &&& asked.filled@ == (BattleModel {
                action_queue: queue_with(start@.action_queue, asked.npc_actions@),
                ..start@
            })
            &&& call_ensures(
                E::ready_for_turn_resolution,
                (engine, &asked.filled),
                asked.engine_ready,
            )
        },
        asked.script.len() == 0,
    ensures
        asked_of(engine, start, asked),
        asked.answers().script == Seq::<Resolution>::empty(),
        no_empty_events(Seq::<ResolvedTurnModel>::empty()),
{
    reveal(asked_of);
    reveal(no_empty_events);
    assert(asked.answers().script =~= Seq::<Resolution>::empty());
}

/// A run whose questions are answered stays so with one more resolution
/// that the engine gave to the battle as the last one left it.
proof fn lemma_asked_goes_on<E: ResolutionEngine>(
    engine: &E,
    start: BattleState,
    asked: Asked,
    answer: Answer,
)
    requires
        asked_of(engine, start, asked),
        sides_exist(asked.npc_actions@),
        call_ensures(
            E::resolve_turn,
            (engine, &asked.state_before(asked.script.len() as int)),
            (answer.state_after, answer.formatted),
        ),
        call_ensures(
            E::ready_for_turn_resolution,
            (engine, &answer.state_after),
            answer.ready_after,
        ),
    ensures
        ({
            let longer = Asked { script: asked.script.push(answer), ..asked };
            &&& asked_of(engine, start, longer)
            &&& longer.state_before(longer.script.len() as int) == answer.state_after
            &&& longer.answers().script == asked.answers().script.push(
                Resolution {
                    state_after: answer.state_after@,
                    formatted: answer.formatted.deep_view(),
                    ready_after: answer.ready_after,
                },
            )
        }),
{
    reveal(asked_of);
    let longer = Asked { script: asked.script.push(answer), ..asked };
    assert(longer.answers().script =~= asked.answers().script.push(
        Resolution {
            state_after: answer.state_after@,
            formatted: answer.formatted.deep_view(),
            ready_after: answer.ready_after,
        },
    ));
    assert forall|i: int| 0 <= i < longer.script.len() implies {
        &&& call_ensures(
            E::resolve_turn,
            (engine, &longer.state_before(i)),
            ((#[trigger] longer.script[i]).state_after, longer.script[i].formatted),
        )
        &&& call_ensures(
            E::ready_for_turn_resolution,
            (engine, &longer.script[i].state_after),
            longer.script[i].ready_after,
        )
    } by {
        if i < asked.script.len() {
            assert(longer.script[i] == asked.script[i]);
            assert(longer.state_before(i) == asked.state_before(i));
        }
    }
}

/// The events stay free of empty texts when those of one more resolution
/// are kept.
proof fn lemma_no_empty_events_goes_on(
    turns: Seq<ResolvedTurnModel>,
    turn_number: u32,
    formatted: Seq<Seq<char>>,
)
    requires
        no_empty_events(turns),
    ensures
        no_empty_events(
            turns.push(ResolvedTurnModel { turn_number, events: kept_events(formatted) }),
        ),
{
    reveal(no_empty_events);
    let kept = kept_events(formatted);
    let longer = turns.push(ResolvedTurnModel { turn_number, events: kept });
    assert forall|k: int, j: int|
        0 <= k < longer.len() && 0 <= j < longer[k].events.len() implies (
    #[trigger] longer[k].events[j]).len() > 0 by {
        if k < turns.len() {
            assert(longer[k] == turns[k]);
        } else {
            formatted.lemma_filter_pred(|text: Seq<char>| text.len() > 0, j);
        }
    }
}

/// Processes a battle forward as far as it goes without further input.
///
/// The automated sides decide once, and their actions are placed in their
/// slots. Then the engine resolves turn after turn for as long as the
/// driver asks for it: while the battle is ready and has not ended, and
/// not more than [`MAX_ITERATIONS`] times. The result is the battle as it
/// then stands, with the events of each resolution in order, or an
/// internal error if the ceiling was reached with the battle still ready.
///
/// Whatever the engine answers, the result is what [`ticks_result`] makes
/// of the answers that it gave to the questions that were put to it
/// ([`asked_of`]).
pub fn process_battle_ticks<E: ResolutionEngine>(engine: &E, battle_state: BattleState) -> (r:
    Result<(BattleState, Vec<ResolvedTurn>), ApiError>)
    ensures
        exists|asked: Asked| #[trigger]
            asked_of(engine, battle_state, asked) && ticks_result(
                battle_state@,
                asked.answers(),
            ) == Some(ticks_view(r)),
        r matches Ok((_, turns)) ==> turns.len() <= MAX_ITERATIONS && no_empty_events(
            turns.deep_view(),
        ),
{
    let ghost given = battle_state;
    let npc_actions = engine.collect_npc_actions(&battle_state);
    if !check_sides(&npc_actions) {
        let ghost asked = Asked {
            npc_actions,
            filled: battle_state,
            engine_ready: false,
            script: Seq::empty(),
        };
        let r = Err(
            ApiError::InternalError {
                message: String::from_str("Automated action for a side that does not exist"),
            },
        );
        proof {
            lemma_asked_begins(engine, given, asked);
            assert(ticks_result(given@, asked.answers()) == Some(ticks_view(r)));
        }
        return r;
    }
    let mut state = battle_state;
    apply_npc_actions(&mut state, &npc_actions);
    let ghost filled = state;
    let mut driver = TickDriver::start(state);
    let mut ready = engine.ready_for_turn_resolution(&driver.state);
    let ghost mut asked = Asked { npc_actions, filled, engine_ready: ready, script: Seq::empty() };
    proof {
        lemma_asked_begins(engine, given, asked);
    }
    loop
        invariant
            given == battle_state,
            sides_exist(asked.npc_actions@),
            asked.filled@ == (BattleModel {
                action_queue: queue_with(given@.action_queue, asked.npc_actions@),
                ..given@
            }),
            asked_of(engine, given, asked),
            driver.state == asked.state_before(asked.script.len() as int),
            call_ensures(E::ready_for_turn_resolution, (engine, &driver.state), ready),
            driver.iterations <= MAX_ITERATIONS,
            driver@.turns.len() == driver.iterations,
            no_empty_events(driver@.turns),
            run(fresh(asked.filled@), asked.engine_ready, asked.answers().script) == (
                driver@,
                tick_step(driver@.state, driver@.iterations, ready),
            ),
            resolutions_taken(fresh(asked.filled@), asked.engine_ready, asked.answers().script)
                == asked.script.len(),
            asked.answers().script.len() == asked.script.len(),
        decreases MAX_ITERATIONS - driver.iterations,
    {
        match driver.next_step(ready) {
            TickStep::Resolve => {
                let ghost held = driver@;
                let (state_after, formatted) = engine.resolve_turn(&driver.state);
                let ghost answer_state = state_after;
                driver.record_turn(state_after, &formatted);
                ready = engine.ready_for_turn_resolution(&driver.state);
                proof {
                    let answer = Answer {
                        state_after: answer_state,
                        formatted,
                        ready_after: ready,
                    };
                    let next = Resolution {
                        state_after: answer_state@,
                        formatted: formatted.deep_view(),
                        ready_after: ready,
                    };
                    lemma_no_empty_events_goes_on(
                        held.turns,
                        held.state.turn_number,
                        formatted.deep_view(),
                    );
                    lemma_run_goes_on(
                        fresh(asked.filled@),
                        asked.engine_ready,
                        asked.answers().script,
                        next,
                    );
                    lemma_asked_goes_on(engine, given, asked, answer);
                    asked = Asked { script: asked.script.push(answer), ..asked };
                }
            },
            TickStep::Finished => {
                let (state, turns) = driver.finish();
                assert(turns.deep_view().len() == turns.len());
                let r = Ok((state, turns));
                assert(ticks_result(given@, asked.answers()) == Some(ticks_view(r)));
                return r;
            },
            TickStep::Exceeded => {
                let r = Err(TickDriver::ceiling_error());
                assert(ticks_result(given@, asked.answers()) == Some(ticks_view(r)));
                return r;
            },
        }
    }
}

} // verus!
