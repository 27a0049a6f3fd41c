//! The execution-ready task configuration and the values it is made of.

use vstd::prelude::*;
use vstd::string::StringExecFns;
use uuid::Uuid;
use crate::env::EnvMap;
use crate::roles::Role;

verus! {

/// Identity and shared settings that every task of a job carries.
#[derive(Clone, Debug, PartialEq, Eq)]
pub struct CommonConfig {
    pub job_id: Uuid,
    pub task_id: Uuid,
    pub instance_id: Uuid,
    pub setup_dir: String,
}

impl CommonConfig {
    /// The same settings under another task identifier.
    pub open spec fn with_task_id_spec(self, task_id: Uuid) -> CommonConfig {
        CommonConfig { task_id, ..self }
    }

    pub fn with_task_id(&self, task_id: Uuid) -> (r: CommonConfig)
        ensures
            r == self.with_task_id_spec(task_id),
    {
        CommonConfig {
            job_id: self.job_id,
            task_id,
            instance_id: self.instance_id,
            setup_dir: self.setup_dir.clone(),
        }
    }
}

/// A directory that is kept in step with a remote counterpart.
#[derive(Clone, Debug, PartialEq, Eq)]
pub struct SyncedDir {
    pub local_path: String,
    pub remote_path: Option<String>,
    /// Whether a progress observer has been registered for the directory.
    pub monitored: bool,
}

impl SyncedDir {
    /// The path that an observer watches: the remote counterpart where there
    /// is one, else the local path.
    pub open spec fn watched_spec(self) -> Seq<char> {
        match self.remote_path {
            Some(remote) => remote@,
            None => self.local_path@,
        }
    }

    pub fn watched(&self) -> (r: String)
        ensures
            r@ == self.watched_spec(),
    {
        match &self.remote_path {
            Some(remote) => remote.clone(),
            None => self.local_path.clone(),
        }
    }
}

/// A live handle on a queue that feeds crash inputs one by one.
#[derive(Clone, Debug, PartialEq, Eq)]
pub struct QueueClient {
    pub locator: String,
}

/// What the library tells a progress sink.
#[derive(Clone, Debug, PartialEq, Eq)]
pub enum UiEvent {
    MonitorDir { role: Role, path: String },
}

/// The fully resolved configuration of one analysis run.
#[derive(Clone, Debug, PartialEq, Eq)]
pub struct Config {
    pub analyzer_exe: String,
    pub analyzer_options: Vec<String>,
    pub analyzer_env: EnvMap,
    pub target_exe: String,
    pub target_options: Vec<String>,
    pub input_queue: Option<QueueClient>,
    pub crashes: Option<SyncedDir>,
    pub analysis: SyncedDir,
    pub tools: Option<SyncedDir>,
    pub reports: Option<SyncedDir>,
    pub unique_reports: Option<SyncedDir>,
    pub no_repro: Option<SyncedDir>,
    pub common: CommonConfig,
}

impl Config {
    /// Crash inputs have one source: with an input queue there is no crashes
    /// directory. The environment has each key once.
    pub open spec fn wf(self) -> bool {
        &&& self.input_queue is Some ==> self.crashes is None
        &&& self.analyzer_env.wf()
    }

    /// The binding of a directory role; `None` for the other roles and for
    /// a directory role that is absent.
    pub open spec fn binding_spec(self, role: Role) -> Option<SyncedDir> {
        match role {
            Role::Analysis => Some(self.analysis),
            Role::Tools => self.tools,
            Role::Crashes => self.crashes,
            Role::Reports => self.reports,
            Role::UniqueReports => self.unique_reports,
            Role::NoRepro => self.no_repro,
            _ => None,
        }
    }
}

/// Why no configuration was assembled.
#[derive(Clone, Debug, PartialEq, Eq)]
pub enum ConfigError {
    /// A mandatory role was not supplied.
    MissingField(Role),
    /// An environment entry is not of the form `key=value`.
    InvalidKeyValue(String),
    /// The directory of a mandatory role could not be bound.
    Resolution { role: Role, cause: String },
    /// The declared input queue could not be attached.
    Queue { cause: String },
    /// The directory of a role was bound, but the progress sink took no
    /// word of it.
    Observer { role: Role },
    /// An outcome was reported that the assembly was not waiting for.
    Unexpected,
}

impl ConfigError {
    pub open spec fn message_spec(self) -> Seq<char> {
        match self {
            ConfigError::MissingField(role) => "expected "@ + match role.flag_spec() {
                Some(flag) => flag,
                None => role.name_spec(),
            },
            ConfigError::InvalidKeyValue(entry) => "invalid key=value, no = found: "@ + entry@,
            ConfigError::Resolution { role, cause } => "unable to bind "@ + role.name_spec()
                + ": "@ + cause@,
            ConfigError::Queue { cause } => "unable to attach input_queue: "@ + cause@,
            ConfigError::Observer { role } => "unable to observe "@ + role.name_spec()
                + ": progress sink is closed"@,
            ConfigError::Unexpected => "unexpected outcome"@,
        }
    }

    /// The text shown to the user; a missing field is named by its flag.
    pub fn message(&self) -> (r: String)
        ensures
            r@ == self.message_spec(),
    {
        match self {
            ConfigError::MissingField(role) => {
                let field = match role.flag() {
                    Some(flag) => flag,
                    None => role.name(),
                };
                String::from_str("expected ").concat(field)
            },
            ConfigError::InvalidKeyValue(entry) => String::from_str(
                "invalid key=value, no = found: ",
            ).concat(entry.as_str()),
            ConfigError::Resolution { role, cause } => String::from_str("unable to bind ").concat(
                role.name(),
            ).concat(": ").concat(cause.as_str()),
            ConfigError::Queue { cause } => String::from_str(
                "unable to attach input_queue: ",
            ).concat(cause.as_str()),
            ConfigError::Observer { role } => String::from_str("unable to observe ").concat(
                role.name(),
            ).concat(": progress sink is closed"),
            ConfigError::Unexpected => String::from_str("unexpected outcome"),
        }
    }
}

} // verus!
