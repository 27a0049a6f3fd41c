//! What holds of every assembly.

use vstd::prelude::*;
use uuid::Uuid;
use crate::assembly::{
    order,
    Action,
    Assembly,
    Awaiting,
    Bindings,
    Event,
    Mode,
    Plan,
    Progress,
    QueueSource,
    ROLE_COUNT,
};
use crate::config::{CommonConfig, Config, ConfigError, SyncedDir};
use crate::outcome::{lemma_assembly_reaches_outcome, outcome, queue_of, run, World};
use crate::roles::Role;

verus! {

/// The place of the analysis directory in the order of a mode.
pub open spec fn analysis_place(mode: Mode) -> int {
    match mode {
        Mode::Cli => 0,
        Mode::Template => 1,
    }
}

impl Progress {
    /// Once the place of the analysis directory is passed, the analysis
    /// directory is bound.
    pub open spec fn analysis_settled(self, place: int) -> bool {
        analysis_place(self.plan.mode) < place ==> self.bound.analysis is Some
    }
}

impl Assembly {
    /// What holds of every state that an assembly goes through: it waits
    /// for a role of the order, and it waits for a role behind the analysis
    /// directory, or for an identifier, only with the analysis directory
    /// bound.
    pub open spec fn coherent(self) -> bool {
        match self {
            Assembly::Materializing(progress) => match progress.awaiting {
                Awaiting::Queue => true,
                Awaiting::Binding(place) => place < ROLE_COUNT && progress.analysis_settled(
                    place as int,
                ),
                Awaiting::Identity => progress.bound.analysis is Some,
            },
            _ => true,
        }
    }
}

proof fn lemma_proceed_coherent(progress: Progress, place: int)
    requires
        0 <= place <= ROLE_COUNT,
        progress.analysis_settled(place),
    ensures
        progress.proceed_spec(place).0.coherent(),
    decreases ROLE_COUNT - place,
{
    if place < ROLE_COUNT {
        let role = order(progress.plan.mode)[place];
        if progress.wanted_spec(role) is None && !role.mandatory() {
            lemma_proceed_coherent(progress, place + 1);
        }
    }
}

proof fn lemma_proceed_wf(progress: Progress, place: int)
    requires
        progress.plan.wf(),
    ensures
        progress.proceed_spec(place).0.wf(),
        progress.proceed_spec(place).1 matches Action::Schedule(config) ==> config.wf(),
    decreases ROLE_COUNT - place,
{
    if 0 <= place < ROLE_COUNT {
        lemma_proceed_wf(progress, place + 1);
    }
}

/// A well-formed assembly stays well formed, and schedules a well-formed
/// configuration only.
pub proof fn lemma_advance_wf(state: Assembly, event: Event)
    ensures
        state.wf() ==> state.advance_spec(event).0.wf(),
        state.advance_spec(event).1 matches Action::Schedule(config) ==> (state.wf()
            ==> config.wf()),
{
    if state.wf() {
        match state {
            Assembly::Materializing(progress) => {
                match (progress.awaiting, event) {
                    (Awaiting::Queue, Event::QueueAttached(queue)) => {
                        lemma_proceed_wf(Progress { queue: Some(queue), ..progress }, 0);
                    },
                    (Awaiting::Binding(place), Event::Bound(dir)) => {
                        let role = order(progress.plan.mode)[place as int];
                        lemma_proceed_wf(
                            Progress { bound: progress.bound.set_spec(role, dir), ..progress },
                            place + 1,
                        );
                    },
                    (Awaiting::Binding(place), Event::Unbound(cause)) => {
                        lemma_proceed_wf(progress, place + 1);
                    },
                    _ => {},
                }
            },
            _ => {},
        }
    }
}

proof fn lemma_proceed_asks(progress: Progress, place: int)
    requires
        0 <= place <= analysis_place(progress.plan.mode),
    ensures
        !(progress.proceed_spec(place).1 is Schedule),
        !(progress.proceed_spec(place).1 is Mint),
    decreases ROLE_COUNT - place,
{
    if place < analysis_place(progress.plan.mode) {
        lemma_proceed_asks(progress, place + 1);
    }
}

/// An assembly never begins by scheduling, nor by minting: it asks for the
/// queue or for a directory, or it stops.
pub proof fn lemma_begin_asks(plan: Plan, common: CommonConfig)
    ensures
        !(Assembly::begin_spec(plan, common).1 is Schedule),
        !(Assembly::begin_spec(plan, common).1 is Mint),
{
    let start = Progress {
        plan,
        common,
        queue: None,
        bound: Bindings::empty_spec(),
        awaiting: Awaiting::Queue,
    };
    match plan.input_queue {
        QueueSource::Declared(locator) => {},
        QueueSource::Supplied(queue) => {
            lemma_proceed_asks(Progress { queue: Some(queue), ..start }, 0);
        },
        QueueSource::Absent => {
            lemma_proceed_asks(start, 0);
        },
    }
}

/// The first state of an assembly is coherent, and it is well formed where
/// the plan is.
pub proof fn lemma_begin_coherent(plan: Plan, common: CommonConfig)
    ensures
        Assembly::begin_spec(plan, common).0.coherent(),
        plan.wf() ==> Assembly::begin_spec(plan, common).0.wf(),
{
    if plan.wf() {
        lemma_begin_wf(plan, common);
    }
    let start = Progress {
        plan,
        common,
        queue: None,
        bound: Bindings::empty_spec(),
        awaiting: Awaiting::Queue,
    };
    match plan.input_queue {
        QueueSource::Declared(locator) => {},
        QueueSource::Supplied(queue) => {
            lemma_proceed_coherent(Progress { queue: Some(queue), ..start }, 0);
        },
        QueueSource::Absent => {
            lemma_proceed_coherent(start, 0);
        },
    }
}

proof fn lemma_begin_wf(plan: Plan, common: CommonConfig)
    requires
        plan.wf(),
    ensures
        Assembly::begin_spec(plan, common).0.wf(),
{
    let start = Progress {
        plan,
        common,
        queue: None,
        bound: Bindings::empty_spec(),
        awaiting: Awaiting::Queue,
    };
    match plan.input_queue {
        QueueSource::Declared(locator) => {},
        QueueSource::Supplied(queue) => {
            lemma_proceed_wf(Progress { queue: Some(queue), ..start }, 0);
        },
        QueueSource::Absent => {
            lemma_proceed_wf(start, 0);
        },
    }
}

/// Every step keeps an assembly coherent.
pub proof fn lemma_advance_coherent(state: Assembly, event: Event)
    requires
        state.coherent(),
    ensures
        state.advance_spec(event).0.coherent(),
{
    match state {
        Assembly::Materializing(progress) => {
            match (progress.awaiting, event) {
                (Awaiting::Queue, Event::QueueAttached(queue)) => {
                    lemma_proceed_coherent(Progress { queue: Some(queue), ..progress }, 0);
                },
                (Awaiting::Binding(place), Event::Bound(dir)) => {
                    let role = order(progress.plan.mode)[place as int];
                    let next = Progress { bound: progress.bound.set_spec(role, dir), ..progress };
                    lemma_proceed_coherent(next, place + 1);
                },
                (Awaiting::Binding(place), Event::Unbound(cause)) => {
                    let role = order(progress.plan.mode)[place as int];
                    if !role.mandatory() {
                        lemma_proceed_coherent(progress, place + 1);
                    }
                },
                _ => {},
            }
        },
        _ => {},
    }
}

proof fn lemma_proceed_mint(progress: Progress, place: int)
    ensures
        ({
            let step = progress.proceed_spec(place);
            step.1 is Mint ==> step.0 == Assembly::Materializing(
                Progress { awaiting: Awaiting::Identity, ..progress },
            )
        }),
    decreases ROLE_COUNT - place,
{
    if 0 <= place < ROLE_COUNT {
        lemma_proceed_mint(progress, place + 1);
    }
}

/// An identifier is asked for only by an assembly that then waits for it,
/// with nothing else changed by the asking.
pub proof fn lemma_mint_step(state: Assembly, event: Event)
    ensures
        ({
            let step = state.advance_spec(event);
            step.1 is Mint ==> (step.0 matches Assembly::Materializing(waiting)
                && waiting.awaiting == Awaiting::Identity)
        }),
{
    let step = state.advance_spec(event);
    if step.1 is Mint {
        match state {
            Assembly::Materializing(progress) => {
                match (progress.awaiting, event) {
                    (Awaiting::Queue, Event::QueueAttached(queue)) => {
                        lemma_proceed_mint(Progress { queue: Some(queue), ..progress }, 0);
                    },
                    (Awaiting::Binding(place), Event::Bound(dir)) => {
                        lemma_proceed_mint(
                            Progress {
                                bound: progress.bound.set_spec(
                                    order(progress.plan.mode)[place as int],
                                    dir,
                                ),
                                ..progress
                            },
                            place + 1,
                        );
                    },
                    (Awaiting::Binding(place), Event::Unbound(cause)) => {
                        lemma_proceed_mint(progress, place + 1);
                    },
                    _ => {},
                }
            },
            _ => {},
        }
    }
}

/// No identifier is wasted: an assembly asks for one only when every role
/// is settled, so that the step which takes the identifier schedules the
/// run. A run that fails has failed before.
pub proof fn lemma_mint_precedes_schedule(state: Assembly, event: Event, task_id: Uuid)
    requires
        state.coherent(),
        state.advance_spec(event).1 is Mint,
    ensures
        state.advance_spec(event).0.advance_spec(Event::Minted(task_id)).0 == Assembly::Scheduled,
        state.advance_spec(event).0.advance_spec(Event::Minted(task_id)).1 is Schedule,
{
    lemma_advance_coherent(state, event);
    lemma_mint_step(state, event);
}

/// With an input queue there is no crashes directory, in every
/// configuration that any step schedules.
pub proof fn lemma_queue_excludes_crashes(state: Assembly, event: Event)
    ensures
        state.advance_spec(event).1 matches Action::Schedule(config) ==> (config.input_queue
            is Some ==> config.crashes is None),
{
    match state {
        Assembly::Materializing(progress) => {
            match (progress.awaiting, event) {
                (Awaiting::Queue, Event::QueueAttached(queue)) => {
                    lemma_proceed_excludes(Progress { queue: Some(queue), ..progress }, 0);
                },
                (Awaiting::Binding(place), Event::Bound(dir)) => {
                    let role = order(progress.plan.mode)[place as int];
                    lemma_proceed_excludes(
                        Progress { bound: progress.bound.set_spec(role, dir), ..progress },
                        place + 1,
                    );
                },
                (Awaiting::Binding(place), Event::Unbound(cause)) => {
                    lemma_proceed_excludes(progress, place + 1);
                },
                _ => {},
            }
        },
        _ => {},
    }
}

proof fn lemma_proceed_excludes(progress: Progress, place: int)
    ensures
        progress.proceed_spec(place).1 matches Action::Schedule(config) ==> (config.input_queue
            is Some ==> config.crashes is None),
    decreases ROLE_COUNT - place,
{
    if 0 <= place < ROLE_COUNT {
        lemma_proceed_excludes(progress, place + 1);
    }
}

/// With an input queue, attached or supplied, the outcome has no crashes
/// directory, whatever path the plan declares for it.
pub proof fn lemma_outcome_queue_excludes_crashes(plan: Plan, common: CommonConfig, world: World)
    ensures
        outcome(plan, common, world) matches Action::Schedule(config) ==> {
            &&& config.input_queue == queue_of(plan, world)
            &&& config.input_queue is Some ==> config.crashes is None
        },
{
}

/// Without an input queue, a crashes path that the world binds gives the
/// outcome its crashes directory.
pub proof fn lemma_crashes_bound_without_queue(
    plan: Plan,
    common: CommonConfig,
    world: World,
    path: String,
    dir: SyncedDir,
)
    requires
        plan.crashes == Some(path),
        queue_of(plan, world) is None,
        (world.dirs)(Role::Crashes, path) == Ok::<SyncedDir, String>(dir),
    ensures
        outcome(plan, common, world) matches Action::Schedule(config) ==> config.crashes == Some(
            dir,
        ),
{
}

/// A run of a template is scheduled under the identifier that was minted
/// for it, and under the job and the settings of its context.
pub proof fn lemma_template_identity(plan: Plan, common: CommonConfig, world: World)
    requires
        plan.mode == Mode::Template,
    ensures
        outcome(plan, common, world) matches Action::Schedule(config) ==> {
            &&& config.common.task_id == world.task_id
            &&& config.common.job_id == common.job_id
            &&& config.common == common.with_task_id_spec(world.task_id)
        },
{
}

/// Two runs for which different identifiers were minted are scheduled under
/// different task identifiers, and under the one job of their context.
pub proof fn lemma_task_ids_differ(
    first: Plan,
    second: Plan,
    common: CommonConfig,
    first_world: World,
    second_world: World,
)
    requires
        first.mode == Mode::Template,
        second.mode == Mode::Template,
        first_world.task_id != second_world.task_id,
    ensures
        match (outcome(first, common, first_world), outcome(second, common, second_world)) {
            (Action::Schedule(a), Action::Schedule(b)) => {
                &&& a.common.task_id != b.common.task_id
                &&& a.common.job_id == b.common.job_id
                &&& a.common.job_id == common.job_id
            },
            _ => true,
        },
{
}

/// Building twice from one plan and one context gives the same thing
/// twice, but for the identifier that was minted: the same error, or two
/// configurations with the same bindings, the same argument lists and the
/// same settings.
pub proof fn lemma_rebuild_is_identical(
    plan: Plan,
    common: CommonConfig,
    first: World,
    second: World,
)
    requires
        first.queue == second.queue,
        first.dirs == second.dirs,
    ensures
        match (outcome(plan, common, first), outcome(plan, common, second)) {
            (Action::Schedule(a), Action::Schedule(b)) => {
                &&& (Config { common: b.common, ..a }) == b
                &&& a.common.with_task_id_spec(b.common.task_id) == b.common
            },
            (a, b) => a == b,
        },
{
}

/// An optional role fails soft: where its directory cannot be bound, the
/// role is absent, and a configuration is scheduled all the same as long as
/// the queue and the analysis directory are to be had.
pub proof fn lemma_optional_role_fails_soft(
    plan: Plan,
    common: CommonConfig,
    world: World,
    role: Role,
    path: String,
)
    requires
        role.directory(),
        !role.mandatory(),
        plan.path_spec(role) == Some(path),
        (world.dirs)(role, path) is Err,
        !(plan.input_queue is Declared && world.queue is Err),
        plan.analysis is Some,
        (world.dirs)(Role::Analysis, plan.analysis->0) is Ok,
    ensures
        outcome(plan, common, world) is Schedule,
        outcome(plan, common, world)->Schedule_0.binding_spec(role) is None,
{
}

/// The analysis directory fails hard: where it cannot be bound, nothing is
/// scheduled, and the cause is handed on.
pub proof fn lemma_analysis_fails_hard(
    plan: Plan,
    common: CommonConfig,
    world: World,
    path: String,
    cause: String,
)
    requires
        plan.analysis == Some(path),
        (world.dirs)(Role::Analysis, path) == Err::<SyncedDir, String>(cause),
        !(plan.input_queue is Declared && world.queue is Err),
    ensures
        outcome(plan, common, world) == Action::Abort(
            ConfigError::Resolution { role: Role::Analysis, cause },
        ),
        forall|steps: nat|
            steps >= ROLE_COUNT + 2 ==> #[trigger] run(
                Assembly::begin_spec(plan, common).0,
                Assembly::begin_spec(plan, common).1,
                world,
                steps,
            ) is Abort,
{
    assert forall|steps: nat| steps >= ROLE_COUNT + 2 implies #[trigger] run(
        Assembly::begin_spec(plan, common).0,
        Assembly::begin_spec(plan, common).1,
        world,
        steps,
    ) is Abort by {
        lemma_assembly_reaches_outcome(plan, common, world, steps);
    }
}

} // verus!
