//! Assembly of a configuration, one outside step at a time.
//!
//! A [`Plan`] says what is to be built. [`Assembly::begin`] and
//! [`Assembly::advance`] decide what has to be done next: attach the input
//! queue, bind the directory of a role, mint an identifier. The caller does
//! that work and reports its outcome as an [`Event`]. The assembly ends with
//! a configuration to schedule, or with the error that stopped it.

use vstd::prelude::*;
use uuid::Uuid;
use crate::config::{CommonConfig, Config, ConfigError, QueueClient, SyncedDir};
use crate::env::EnvMap;
use crate::laws::{
    lemma_advance_coherent,
    lemma_advance_wf,
    lemma_begin_asks,
    lemma_begin_coherent,
    lemma_queue_excludes_crashes,
};
use crate::roles::Role;

verus! {

/// The description that a plan was made from.
#[derive(Clone, Copy, Debug, PartialEq, Eq, Structural)]
pub enum Mode {
    /// Command-line flags: the caller's identity is kept.
    Cli,
    /// A template: each run gets a task identifier of its own.
    Template,
}

/// Where crash inputs come from, as far as a queue is concerned.
#[derive(Clone, Debug, PartialEq, Eq)]
pub enum QueueSource {
    Absent,
    /// A handle that the caller already holds.
    Supplied(QueueClient),
    /// A locator that has yet to be attached.
    Declared(String),
}

/// What is to be built: every field as a plain value, nothing bound yet.
#[derive(Clone, Debug, PartialEq, Eq)]
pub struct Plan {
    pub mode: Mode,
    pub analyzer_exe: String,
    pub analyzer_options: Vec<String>,
    pub analyzer_env: EnvMap,
    pub target_exe: String,
    pub target_options: Vec<String>,
    pub input_queue: QueueSource,
    pub crashes: Option<String>,
    pub analysis: Option<String>,
    pub tools: Option<String>,
    pub reports: Option<String>,
    pub unique_reports: Option<String>,
    pub no_repro: Option<String>,
}

/// The number of directory roles.
pub const ROLE_COUNT: usize = 6;

/// The order in which the directory roles of a plan are bound.
pub open spec fn order(mode: Mode) -> Seq<Role> {
    match mode {
        Mode::Cli => seq![
            Role::Analysis,
            Role::Tools,
            Role::Crashes,
            Role::Reports,
            Role::NoRepro,
            Role::UniqueReports,
        ],
        Mode::Template => seq![
            Role::Crashes,
            Role::Analysis,
            Role::Tools,
            Role::Reports,
            Role::UniqueReports,
            Role::NoRepro,
        ],
    }
}

/// The role at a place of the order; `None` behind its end.
pub fn role_at(mode: Mode, place: usize) -> (r: Option<Role>)
    ensures
        place < ROLE_COUNT ==> r == Some(order(mode)[place as int]),
        place >= ROLE_COUNT ==> r is None,
{
    match mode {
        Mode::Cli => match place {
            0 => Some(Role::Analysis),
            1 => Some(Role::Tools),
            2 => Some(Role::Crashes),
            3 => Some(Role::Reports),
            4 => Some(Role::NoRepro),
            5 => Some(Role::UniqueReports),
            _ => None,
        },
        Mode::Template => match place {
            0 => Some(Role::Crashes),
            1 => Some(Role::Analysis),
            2 => Some(Role::Tools),
            3 => Some(Role::Reports),
            4 => Some(Role::UniqueReports),
            5 => Some(Role::NoRepro),
            _ => None,
        },
    }
}

/// The name under which the directory of a role is handed to the resolver:
/// for a command-line run the flag that supplies the role, for a template
/// run the name of the role.
pub open spec fn resolver_name_spec(mode: Mode, role: Role) -> Seq<char> {
    match mode {
        Mode::Cli => match role.flag_spec() {
            Some(flag) => flag,
            None => role.name_spec(),
        },
        Mode::Template => role.name_spec(),
    }
}

pub fn resolver_name(mode: Mode, role: Role) -> (r: &'static str)
    ensures
        r@ == resolver_name_spec(mode, role),
{
    match mode {
        Mode::Cli => match role.flag() {
            Some(flag) => flag,
            None => role.name(),
        },
        Mode::Template => role.name(),
    }
}

fn clone_path(path: &Option<String>) -> (r: Option<String>)
    ensures
        r == *path,
{
    match path {
        Some(p) => Some(p.clone()),
        None => None,
    }
}

impl Plan {
    pub open spec fn wf(self) -> bool {
        self.analyzer_env.wf()
    }

    /// The path declared for a directory role.
    pub open spec fn path_spec(self, role: Role) -> Option<String> {
        match role {
            Role::Analysis => self.analysis,
            Role::Tools => self.tools,
            Role::Crashes => self.crashes,
            Role::Reports => self.reports,
            Role::UniqueReports => self.unique_reports,
            Role::NoRepro => self.no_repro,
            _ => None,
        }
    }

    pub fn path(&self, role: Role) -> (r: Option<String>)
        ensures
            r == self.path_spec(role),
    {
        match role {
            Role::Analysis => clone_path(&self.analysis),
            Role::Tools => clone_path(&self.tools),
            Role::Crashes => clone_path(&self.crashes),
            Role::Reports => clone_path(&self.reports),
            Role::UniqueReports => clone_path(&self.unique_reports),
            Role::NoRepro => clone_path(&self.no_repro),
            _ => None,
        }
    }
}

/// The directories bound so far, one place for each directory role.
#[derive(Clone, Debug, PartialEq, Eq)]
pub struct Bindings {
    pub crashes: Option<SyncedDir>,
    pub analysis: Option<SyncedDir>,
    pub tools: Option<SyncedDir>,
    pub reports: Option<SyncedDir>,
    pub unique_reports: Option<SyncedDir>,
    pub no_repro: Option<SyncedDir>,
}

impl Bindings {
    pub open spec fn empty_spec() -> Bindings {
        Bindings {
            crashes: None,
            analysis: None,
            tools: None,
            reports: None,
            unique_reports: None,
            no_repro: None,
        }
    }

    pub fn empty() -> (r: Bindings)
        ensures
            r == Bindings::empty_spec(),
    {
        Bindings {
            crashes: None,
            analysis: None,
            tools: None,
            reports: None,
            unique_reports: None,
            no_repro: None,
        }
    }

    pub open spec fn get_spec(self, role: Role) -> Option<SyncedDir> {
        match role {
            Role::Analysis => self.analysis,
            Role::Tools => self.tools,
            Role::Crashes => self.crashes,
            Role::Reports => self.reports,
            Role::UniqueReports => self.unique_reports,
            Role::NoRepro => self.no_repro,
            _ => None,
        }
    }

    /// The bindings with `dir` bound to `role`; unchanged where `role` is no
    /// directory role.
    pub open spec fn set_spec(self, role: Role, dir: SyncedDir) -> Bindings {
        match role {
            Role::Analysis => Bindings { analysis: Some(dir), ..self },
            Role::Tools => Bindings { tools: Some(dir), ..self },
            Role::Crashes => Bindings { crashes: Some(dir), ..self },
            Role::Reports => Bindings { reports: Some(dir), ..self },
            Role::UniqueReports => Bindings { unique_reports: Some(dir), ..self },
            Role::NoRepro => Bindings { no_repro: Some(dir), ..self },
            _ => self,
        }
    }

    pub fn set(self, role: Role, dir: SyncedDir) -> (r: Bindings)
        ensures
            r == self.set_spec(role, dir),
    {
        let mut bound = self;
        match role {
            Role::Analysis => {
                bound.analysis = Some(dir);
            },
            Role::Tools => {
                bound.tools = Some(dir);
            },
            Role::Crashes => {
                bound.crashes = Some(dir);
            },
            Role::Reports => {
                bound.reports = Some(dir);
            },
            Role::UniqueReports => {
                bound.unique_reports = Some(dir);
            },
            Role::NoRepro => {
                bound.no_repro = Some(dir);
            },
            _ => {},
        }
        bound
    }
}

/// The outcome that an assembly waits for.
#[derive(Clone, Copy, Debug, PartialEq, Eq, Structural)]
pub enum Awaiting {
    /// The declared input queue is being attached.
    Queue,
    /// The role at this place of the order is being bound.
    Binding(usize),
    /// A task identifier is being minted.
    Identity,
}

/// An assembly under way.
#[derive(Clone, Debug, PartialEq, Eq)]
pub struct Progress {
    pub plan: Plan,
    pub common: CommonConfig,
    pub queue: Option<QueueClient>,
    pub bound: Bindings,
    pub awaiting: Awaiting,
}

/// The state of an assembly.
#[derive(Clone, Debug, PartialEq, Eq)]
pub enum Assembly {
    Materializing(Progress),
    Scheduled,
    Failed,
}

/// What the caller has to do next.
#[derive(Clone, Debug, PartialEq, Eq)]
pub enum Action {
    /// Attach the queue at this locator and report `QueueAttached` or
    /// `QueueFailed`.
    AttachQueue { locator: String },
    /// Bind this role to the directory at this path and report `Bound` or
    /// `Unbound`.
    Resolve { role: Role, path: String },
    /// Mint a task identifier and report `Minted`.
    Mint,
    /// The configuration is complete: hand it to the analysis.
    Schedule(Config),
    /// Nothing is to be scheduled.
    Abort(ConfigError),
}

/// How the work that an action asked for ended.
#[derive(Clone, Debug, PartialEq, Eq)]
pub enum Event {
    QueueAttached(QueueClient),
    QueueFailed(String),
    Bound(SyncedDir),
    Unbound(String),
    /// The directory was bound, but its observer could not be registered,
    /// and the run is not to go on without it.
    Unobserved,
    Minted(Uuid),
}

impl Action {
    /// A final action ends the assembly.
    pub open spec fn is_final_spec(&self) -> bool {
        self is Schedule || self is Abort
    }

    #[verifier::when_used_as_spec(is_final_spec)]
    pub fn is_final(&self) -> (b: bool)
        ensures
            b == self.is_final_spec(),
    {
        match self {
            Action::Schedule(_) => true,
            Action::Abort(_) => true,
            _ => false,
        }
    }
}

impl Progress {
    pub open spec fn wf(self) -> bool {
        self.plan.wf()
    }

    /// The path that is to be resolved for a role: the declared path, but
    /// none for a role that the input queue excludes, the crashes directory,
    /// while a queue is attached.
    pub open spec fn wanted_spec(self, role: Role) -> Option<String> {
        if Role::InputQueue.excludes(role) && self.queue is Some {
            None
        } else {
            self.plan.path_spec(role)
        }
    }

    pub fn wanted(&self, role: Role) -> (r: Option<String>)
        ensures
            r == self.wanted_spec(role),
    {
        if Role::InputQueue.excludes(role) && self.queue.is_some() {
            None
        } else {
            self.plan.path(role)
        }
    }

    /// The configuration made of the plan, of what has been bound and of
    /// `analysis`. With an input queue the crashes directory is left out.
    pub open spec fn config_spec(self, analysis: SyncedDir, common: CommonConfig) -> Config {
        Config {
            analyzer_exe: self.plan.analyzer_exe,
            analyzer_options: self.plan.analyzer_options,
            analyzer_env: self.plan.analyzer_env,
            target_exe: self.plan.target_exe,
            target_options: self.plan.target_options,
            input_queue: self.queue,
            crashes: if self.queue is Some {
                None
            } else {
                self.bound.crashes
            },
            analysis,
            tools: self.bound.tools,
            reports: self.bound.reports,
            unique_reports: self.bound.unique_reports,
            no_repro: self.bound.no_repro,
            common,
        }
    }

    /// The end of an assembly under the identity `common`.
    pub open spec fn schedule_spec(self, common: CommonConfig) -> (Assembly, Action) {
        match self.bound.analysis {
            Some(analysis) => (
                Assembly::Scheduled,
                Action::Schedule(self.config_spec(analysis, common)),
            ),
            None => (Assembly::Failed, Action::Abort(ConfigError::MissingField(Role::Analysis))),
        }
    }

    /// What follows the last binding: a template run asks for an identifier
    /// of its own, a command-line run is scheduled as it is.
    pub open spec fn finish_spec(self) -> (Assembly, Action) {
        match self.plan.mode {
            Mode::Template => (
                Assembly::Materializing(Progress { awaiting: Awaiting::Identity, ..self }),
                Action::Mint,
            ),
            Mode::Cli => self.schedule_spec(self.common),
        }
    }

    /// What follows when the roles before `place` are done with: the first
    /// role from there on that has a path to resolve is asked for; an
    /// optional role without one is passed over, a mandatory one stops the
    /// assembly.
    pub open spec fn proceed_spec(self, place: int) -> (Assembly, Action)
        decreases ROLE_COUNT - place,
    {
        if place < 0 || place >= ROLE_COUNT {
            self.finish_spec()
        } else {
            let role = order(self.plan.mode)[place];
            match self.wanted_spec(role) {
                Some(path) => (
                    Assembly::Materializing(
                        Progress { awaiting: Awaiting::Binding(place as usize), ..self },
                    ),
                    Action::Resolve { role, path },
                ),
                None => if role.mandatory() {
                    (Assembly::Failed, Action::Abort(ConfigError::MissingField(role)))
                } else {
                    self.proceed_spec(place + 1)
                },
            }
        }
    }

    fn schedule(self, common: CommonConfig) -> (r: (Assembly, Action))
        ensures
            r == self.schedule_spec(common),
    {
        let Progress { plan, common: _, queue, bound, awaiting: _ } = self;
        match bound.analysis {
            Some(analysis) => {
                let crashes = if queue.is_some() {
                    None
                } else {
                    bound.crashes
                };
                let config = Config {
                    analyzer_exe: plan.analyzer_exe,
                    analyzer_options: plan.analyzer_options,
                    analyzer_env: plan.analyzer_env,
                    target_exe: plan.target_exe,
                    target_options: plan.target_options,
                    input_queue: queue,
                    crashes,
                    analysis,
                    tools: bound.tools,
                    reports: bound.reports,
                    unique_reports: bound.unique_reports,
                    no_repro: bound.no_repro,
                    common,
                };
                (Assembly::Scheduled, Action::Schedule(config))
            },
            None => (Assembly::Failed, Action::Abort(ConfigError::MissingField(Role::Analysis))),
        }
    }

    fn finish(self) -> (r: (Assembly, Action))
        ensures
            r == self.finish_spec(),
    {
        match self.plan.mode {
            Mode::Template => {
                let mut next = self;
                next.awaiting = Awaiting::Identity;
                (Assembly::Materializing(next), Action::Mint)
            },
            Mode::Cli => {
                let common = self.common.with_task_id(self.common.task_id);
                self.schedule(common)
            },
        }
    }

    fn proceed(self, place: usize) -> (r: (Assembly, Action))
        ensures
            r == self.proceed_spec(place as int),
    {
        let mut at: usize = place;
        while at < ROLE_COUNT
            invariant
                self.proceed_spec(at as int) == self.proceed_spec(place as int),
            decreases ROLE_COUNT - at,
        {
            match role_at(self.plan.mode, at) {
                Some(role) => {
                    match self.wanted(role) {
                        Some(path) => {
                            let mut next = self;
                            next.awaiting = Awaiting::Binding(at);
                            return (Assembly::Materializing(next), Action::Resolve { role, path });
                        },
                        None => {
                            if role.mandatory() {
                                return (
                                    Assembly::Failed,
                                    Action::Abort(ConfigError::MissingField(role)),
                                );
                            }
                        },
                    }
                },
                None => {},
            }
            at += 1;
        }
        self.finish()
    }
}

impl Assembly {
    pub open spec fn wf(self) -> bool {
        self matches Assembly::Materializing(progress) ==> progress.wf()
    }

    /// The first step of the assembly of `plan` under the identity `common`:
    /// a declared queue is attached before anything else, a supplied one is
    /// taken as it is.
    pub open spec fn begin_spec(plan: Plan, common: CommonConfig) -> (Assembly, Action) {
        let start = Progress {
            plan,
            common,
            queue: None,
            bound: Bindings::empty_spec(),
            awaiting: Awaiting::Queue,
        };
        match plan.input_queue {
            QueueSource::Declared(locator) => (
                Assembly::Materializing(start),
                Action::AttachQueue { locator },
            ),
            QueueSource::Supplied(queue) => Progress { queue: Some(queue), ..start }.proceed_spec(0),
            QueueSource::Absent => start.proceed_spec(0),
        }
    }

    /// The step that an outcome leads to. A failed attachment of the queue
    /// and a failed binding of a mandatory role stop the assembly; a failed
    /// binding of another role leaves that role absent. A directory that is
    /// reported as unobserved stops the assembly, whatever its role. An
    /// outcome that the assembly does not wait for stops it; an assembly
    /// that has ended stays as it is.
    pub open spec fn advance_spec(self, event: Event) -> (Assembly, Action) {
        match self {
            Assembly::Materializing(progress) => match (progress.awaiting, event) {
                (Awaiting::Queue, Event::QueueAttached(queue)) => Progress {
                    queue: Some(queue),
                    ..progress
                }.proceed_spec(0),
                (Awaiting::Queue, Event::QueueFailed(cause)) => (
                    Assembly::Failed,
                    Action::Abort(ConfigError::Queue { cause }),
                ),
                (Awaiting::Binding(place), Event::Bound(dir)) => if place < ROLE_COUNT {
                    Progress {
                        bound: progress.bound.set_spec(
                            order(progress.plan.mode)[place as int],
                            dir,
                        ),
                        ..progress
                    }.proceed_spec(place + 1)
                } else {
                    (Assembly::Failed, Action::Abort(ConfigError::Unexpected))
                },
                (Awaiting::Binding(place), Event::Unbound(cause)) => if place < ROLE_COUNT {
                    let role = order(progress.plan.mode)[place as int];
                    if role.mandatory() {
                        (Assembly::Failed, Action::Abort(ConfigError::Resolution { role, cause }))
                    } else {
                        progress.proceed_spec(place + 1)
                    }
                } else {
                    (Assembly::Failed, Action::Abort(ConfigError::Unexpected))
                },
                (Awaiting::Binding(place), Event::Unobserved) => if place < ROLE_COUNT {
                    (
                        Assembly::Failed,
                        Action::Abort(
                            ConfigError::Observer { role: order(progress.plan.mode)[place as int] },
                        ),
                    )
                } else {
                    (Assembly::Failed, Action::Abort(ConfigError::Unexpected))
                },
                (Awaiting::Identity, Event::Minted(task_id)) => progress.schedule_spec(
                    progress.common.with_task_id_spec(task_id),
                ),
                _ => (Assembly::Failed, Action::Abort(ConfigError::Unexpected)),
            },
            _ => (self, Action::Abort(ConfigError::Unexpected)),
        }
    }

    pub fn begin(plan: Plan, common: CommonConfig) -> (r: (Assembly, Action))
        ensures
            r == Assembly::begin_spec(plan, common),
            r.0.coherent(),
            plan.wf() ==> r.0.wf(),
            !(r.1 is Schedule) && !(r.1 is Mint),
    {
        proof {
            lemma_begin_coherent(plan, common);
            lemma_begin_asks(plan, common);
        }
        let source = match &plan.input_queue {
            QueueSource::Declared(locator) => QueueSource::Declared(locator.clone()),
            QueueSource::Supplied(queue) => QueueSource::Supplied(
                QueueClient { locator: queue.locator.clone() },
            ),
            QueueSource::Absent => QueueSource::Absent,
        };
        let start = Progress {
            plan,
            common,
            queue: None,
            bound: Bindings::empty(),
            awaiting: Awaiting::Queue,
        };
        match source {
            QueueSource::Declared(locator) => (
                Assembly::Materializing(start),
                Action::AttachQueue { locator },
            ),
            QueueSource::Supplied(queue) => {
                let mut start = start;
                start.queue = Some(queue);
                start.proceed(0)
            },
            QueueSource::Absent => start.proceed(0),
        }
    }

    pub fn advance(self, event: Event) -> (r: (Assembly, Action))
        ensures
            r == self.advance_spec(event),
            self.coherent() ==> r.0.coherent(),
            self.wf() ==> r.0.wf(),
            r.1 matches Action::Schedule(config) ==> {
                &&& config.input_queue is Some ==> config.crashes is None
                &&& self.wf() ==> config.wf()
            },
    {
        proof {
            if self.coherent() {
                lemma_advance_coherent(self, event);
            }
            lemma_advance_wf(self, event);
            lemma_queue_excludes_crashes(self, event);
        }
        match self {
            Assembly::Materializing(progress) => {
                let awaiting = progress.awaiting;
                match (awaiting, event) {
                    (Awaiting::Queue, Event::QueueAttached(queue)) => {
                        let mut next = progress;
                        next.queue = Some(queue);
                        next.proceed(0)
                    },
                    (Awaiting::Queue, Event::QueueFailed(cause)) => (
                        Assembly::Failed,
                        Action::Abort(ConfigError::Queue { cause }),
                    ),
                    (Awaiting::Binding(place), Event::Bound(dir)) => {
                        match role_at(progress.plan.mode, place) {
                            Some(role) => {
                                let Progress { plan, common, queue, bound, awaiting } = progress;
                                let next = Progress {
                                    plan,
                                    common,
                                    queue,
                                    bound: bound.set(role, dir),
                                    awaiting,
                                };
                                next.proceed(place + 1)
                            },
                            None => (Assembly::Failed, Action::Abort(ConfigError::Unexpected)),
                        }
                    },
                    (Awaiting::Binding(place), Event::Unbound(cause)) => {
                        match role_at(progress.plan.mode, place) {
                            Some(role) => {
                                if role.mandatory() {
                                    (
                                        Assembly::Failed,
                                        Action::Abort(ConfigError::Resolution { role, cause }),
                                    )
                                } else {
                                    progress.proceed(place + 1)
                                }
                            },
                            None => (Assembly::Failed, Action::Abort(ConfigError::Unexpected)),
                        }
                    },
                    (Awaiting::Binding(place), Event::Unobserved) => {
                        match role_at(progress.plan.mode, place) {
                            Some(role) => (
                                Assembly::Failed,
                                Action::Abort(ConfigError::Observer { role }),
                            ),
                            None => (Assembly::Failed, Action::Abort(ConfigError::Unexpected)),
                        }
                    },
                    (Awaiting::Identity, Event::Minted(task_id)) => {
                        let common = progress.common.with_task_id(task_id);
                        progress.schedule(common)
                    },
                    _ => (Assembly::Failed, Action::Abort(ConfigError::Unexpected)),
                }
            },
            Assembly::Scheduled => (Assembly::Scheduled, Action::Abort(ConfigError::Unexpected)),
            Assembly::Failed => (Assembly::Failed, Action::Abort(ConfigError::Unexpected)),
        }
    }
}

} // verus!
