//! What an assembly comes to, stated at once.
//!
//! [`outcome`] says which configuration a plan leads to in a world that
//! answers every request in a fixed way, without any step in between.
//! [`lemma_assembly_reaches_outcome`] shows that the steps of
//! [`Assembly`](crate::assembly::Assembly) end in exactly that.

use vstd::prelude::*;
use uuid::Uuid;
use crate::assembly::{
    order,
    Action,
    Assembly,
    Awaiting,
    Bindings,
    Event,
    Mode,
    Plan,
    Progress,
    QueueSource,
    ROLE_COUNT,
};
use crate::config::{CommonConfig, Config, ConfigError, QueueClient, SyncedDir};
use crate::roles::Role;

verus! {

/// How the outside answers: what attaching the queue gives, what binding a
/// role to a path gives, and the identifier that is minted.
pub ghost struct World {
    pub queue: Result<QueueClient, String>,
    pub dirs: spec_fn(Role, String) -> Result<SyncedDir, String>,
    pub task_id: Uuid,
}

impl World {
    /// The outcome that the world reports for an action.
    pub open spec fn respond(self, action: Action) -> Event {
        match action {
            Action::AttachQueue { locator } => match self.queue {
                Ok(queue) => Event::QueueAttached(queue),
                Err(cause) => Event::QueueFailed(cause),
            },
            Action::Resolve { role, path } => match (self.dirs)(role, path) {
                Ok(dir) => Event::Bound(dir),
                Err(cause) => Event::Unbound(cause),
            },
            _ => Event::Minted(self.task_id),
        }
    }
}

/// The action that an assembly ends with when the world answers each of its
/// requests, for at most `steps` requests.
pub open spec fn run(state: Assembly, action: Action, world: World, steps: nat) -> Action
    decreases steps,
{
    if action.is_final() || steps == 0 {
        action
    } else {
        let next = state.advance_spec(world.respond(action));
        run(next.0, next.1, world, (steps - 1) as nat)
    }
}

/// The queue that a plan runs with once attaching has succeeded.
pub open spec fn queue_of(plan: Plan, world: World) -> Option<QueueClient> {
    match plan.input_queue {
        QueueSource::Declared(_) => match world.queue {
            Ok(queue) => Some(queue),
            Err(_) => None,
        },
        QueueSource::Supplied(queue) => Some(queue),
        QueueSource::Absent => None,
    }
}

/// The directory that a role ends up with: the one that the world gives for
/// its declared path; none where no path is declared, where binding fails,
/// and for the crashes directory beside an input queue.
pub open spec fn binding_of(plan: Plan, world: World, role: Role) -> Option<SyncedDir> {
    if Role::InputQueue.excludes(role) && queue_of(plan, world) is Some {
        None
    } else {
        match plan.path_spec(role) {
            Some(path) => match (world.dirs)(role, path) {
                Ok(dir) => Some(dir),
                Err(_) => None,
            },
            None => None,
        }
    }
}

/// The identity that a run is scheduled under.
pub open spec fn identity_of(plan: Plan, common: CommonConfig, world: World) -> CommonConfig {
    match plan.mode {
        Mode::Template => common.with_task_id_spec(world.task_id),
        Mode::Cli => common,
    }
}

/// What the assembly of `plan` comes to in `world`.
///
/// It fails where a declared queue cannot be attached, where no analysis
/// directory is declared, and where the analysis directory cannot be bound.
/// Everywhere else a configuration is scheduled, with every other role bound
/// or absent.
pub open spec fn outcome(plan: Plan, common: CommonConfig, world: World) -> Action {
    if plan.input_queue is Declared && world.queue is Err {
        Action::Abort(ConfigError::Queue { cause: world.queue->Err_0 })
    } else {
        match plan.analysis {
            None => Action::Abort(ConfigError::MissingField(Role::Analysis)),
            Some(path) => match (world.dirs)(Role::Analysis, path) {
                Err(cause) => Action::Abort(
                    ConfigError::Resolution { role: Role::Analysis, cause },
                ),
                Ok(analysis) => Action::Schedule(
                    Config {
                        analyzer_exe: plan.analyzer_exe,
                        analyzer_options: plan.analyzer_options,
                        analyzer_env: plan.analyzer_env,
                        target_exe: plan.target_exe,
                        target_options: plan.target_options,
                        input_queue: queue_of(plan, world),
                        crashes: binding_of(plan, world, Role::Crashes),
                        analysis,
                        tools: binding_of(plan, world, Role::Tools),
                        reports: binding_of(plan, world, Role::Reports),
                        unique_reports: binding_of(plan, world, Role::UniqueReports),
                        no_repro: binding_of(plan, world, Role::NoRepro),
                        common: identity_of(plan, common, world),
                    },
                ),
            },
        }
    }
}

/// The bindings after the roles before `place` have been dealt with.
pub open spec fn settled(plan: Plan, world: World, place: int) -> Bindings
    decreases place,
{
    if place <= 0 {
        Bindings::empty_spec()
    } else {
        let role = order(plan.mode)[place - 1];
        let before = settled(plan, world, place - 1);
        match binding_of(plan, world, role) {
            Some(dir) => before.set_spec(role, dir),
            None => before,
        }
    }
}

/// No mandatory role before `place` is left unbound.
pub open spec fn passed(plan: Plan, world: World, place: int) -> bool {
    forall|at: int|
        0 <= at < place && at < ROLE_COUNT && (#[trigger] order(plan.mode)[at]).mandatory()
            ==> binding_of(plan, world, order(plan.mode)[at]) is Some
}

proof fn lemma_settled_all(plan: Plan, world: World)
    ensures
        forall|role: Role|
            role.directory() ==> #[trigger] settled(plan, world, ROLE_COUNT as int).get_spec(role)
                == binding_of(plan, world, role),
{
    reveal_with_fuel(settled, 7);
    assert forall|role: Role| role.directory() implies #[trigger] settled(
        plan,
        world,
        ROLE_COUNT as int,
    ).get_spec(role) == binding_of(plan, world, role) by {
        match plan.mode {
            Mode::Cli => {},
            Mode::Template => {},
        }
    }
}

proof fn lemma_run_from(progress: Progress, place: int, world: World, steps: nat)
    requires
        0 <= place <= ROLE_COUNT,
        steps >= ROLE_COUNT - place + 1,
        !(progress.plan.input_queue is Declared && world.queue is Err),
        progress.queue == queue_of(progress.plan, world),
        progress.bound == settled(progress.plan, world, place),
        passed(progress.plan, world, place),
    ensures
        run(progress.proceed_spec(place).0, progress.proceed_spec(place).1, world, steps)
            == outcome(progress.plan, progress.common, world),
    decreases ROLE_COUNT - place,
{
    let plan = progress.plan;
    let step = progress.proceed_spec(place);
    if place >= ROLE_COUNT {
        lemma_settled_all(plan, world);
        assert(order(plan.mode)[1] == Role::Analysis || order(plan.mode)[0] == Role::Analysis);
        assert(Role::Analysis.directory());
        assert(binding_of(plan, world, Role::Analysis) is Some);
        assert(progress.bound.get_spec(Role::Analysis) == binding_of(plan, world, Role::Analysis));
        assert(Role::Tools.directory() && Role::Crashes.directory() && Role::Reports.directory()
            && Role::UniqueReports.directory() && Role::NoRepro.directory());
        assert(progress.bound.get_spec(Role::Tools) == binding_of(plan, world, Role::Tools));
        assert(progress.bound.get_spec(Role::Crashes) == binding_of(plan, world, Role::Crashes));
        assert(progress.bound.get_spec(Role::Reports) == binding_of(plan, world, Role::Reports));
        assert(progress.bound.get_spec(Role::UniqueReports) == binding_of(
            plan,
            world,
            Role::UniqueReports,
        ));
        assert(progress.bound.get_spec(Role::NoRepro) == binding_of(plan, world, Role::NoRepro));
        match plan.mode {
            Mode::Template => {
                let minted = step.0.advance_spec(world.respond(step.1));
                assert(run(step.0, step.1, world, steps) == run(
                    minted.0,
                    minted.1,
                    world,
                    (steps - 1) as nat,
                ));
                assert(minted.1.is_final());
            },
            Mode::Cli => {
                assert(step.1.is_final());
            },
        }
    } else {
        let role = order(plan.mode)[place];
        assert(role.directory()) by {
            match plan.mode {
                Mode::Cli => {},
                Mode::Template => {},
            }
        }
        match progress.wanted_spec(role) {
            Some(path) => {
                let asked = Progress { awaiting: Awaiting::Binding(place as usize), ..progress };
                assert(step.0 == Assembly::Materializing(asked));
                let next = step.0.advance_spec(world.respond(step.1));
                assert(run(step.0, step.1, world, steps) == run(
                    next.0,
                    next.1,
                    world,
                    (steps - 1) as nat,
                ));
                match (world.dirs)(role, path) {
                    Ok(dir) => {
                        let bound = Progress { bound: asked.bound.set_spec(role, dir), ..asked };
                        assert(next == bound.proceed_spec(place + 1));
                        assert(binding_of(plan, world, role) == Some(dir));
                        assert(passed(plan, world, place + 1));
                        lemma_run_from(bound, place + 1, world, (steps - 1) as nat);
                    },
                    Err(cause) => {
                        assert(binding_of(plan, world, role) is None);
                        if role.mandatory() {
                            assert(role == Role::Analysis);
                            assert(next.1.is_final());
                        } else {
                            assert(next == asked.proceed_spec(place + 1));
                            assert(passed(plan, world, place + 1));
                            lemma_run_from(asked, place + 1, world, (steps - 1) as nat);
                        }
                    },
                }
            },
            None => {
                assert(binding_of(plan, world, role) is None);
                if role.mandatory() {
                    assert(role == Role::Analysis);
                    assert(step.1.is_final());
                } else {
                    assert(passed(plan, world, place + 1));
                    lemma_run_from(progress, place + 1, world, steps);
                }
            },
        }
    }
}

/// Step by step, the assembly of a plan ends in its outcome: within eight
/// requests, whatever the world answers.
pub proof fn lemma_assembly_reaches_outcome(
    plan: Plan,
    common: CommonConfig,
    world: World,
    steps: nat,
)
    requires
        steps >= ROLE_COUNT + 2,
    ensures
        run(
            Assembly::begin_spec(plan, common).0,
            Assembly::begin_spec(plan, common).1,
            world,
            steps,
        ) == outcome(plan, common, world),
{
    let first = Assembly::begin_spec(plan, common);
    let start = Progress {
        plan,
        common,
        queue: None,
        bound: Bindings::empty_spec(),
        awaiting: Awaiting::Queue,
    };
    match plan.input_queue {
        QueueSource::Declared(locator) => {
            let next = first.0.advance_spec(world.respond(first.1));
            assert(run(first.0, first.1, world, steps) == run(
                next.0,
                next.1,
                world,
                (steps - 1) as nat,
            ));
            match world.queue {
                Ok(queue) => {
                    let attached = Progress { queue: Some(queue), ..start };
                    assert(next == attached.proceed_spec(0));
                    lemma_run_from(attached, 0, world, (steps - 1) as nat);
                },
                Err(cause) => {
                    assert(next.1.is_final());
                },
            }
        },
        QueueSource::Supplied(queue) => {
            let attached = Progress { queue: Some(queue), ..start };
            lemma_run_from(attached, 0, world, steps);
        },
        QueueSource::Absent => {
            lemma_run_from(start, 0, world, steps);
        },
    }
}

} // verus!
