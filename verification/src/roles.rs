//! The fixed set of logical roles of an analysis task.

use vstd::prelude::*;

verus! {

pub const TARGET_EXE: &'static str = "target_exe";
pub const TARGET_ENV: &'static str = "target_env";
pub const TARGET_OPTIONS: &'static str = "target_options";
pub const ANALYZER_EXE: &'static str = "analyzer_exe";
pub const ANALYZER_OPTIONS: &'static str = "analyzer_options";
pub const ANALYZER_ENV: &'static str = "analyzer_env";
pub const ANALYSIS_DIR: &'static str = "analysis";
pub const TOOLS_DIR: &'static str = "tools";
pub const CRASHES_DIR: &'static str = "crashes";
pub const REPORTS_DIR: &'static str = "reports_dir";
pub const UNIQUE_REPORTS_DIR: &'static str = "unique_reports_dir";
pub const NO_REPRO_DIR: &'static str = "no_repro_dir";

/// A logical role that a path, a directory or a queue plays for the task.
#[derive(Clone, Copy, Debug, PartialEq, Eq, Structural)]
pub enum Role {
    Target,
    Analyzer,
    Analysis,
    Tools,
    Crashes,
    Reports,
    UniqueReports,
    NoRepro,
    InputQueue,
}

impl Role {
    /// The name under which the role is known to observers and resolvers.
    pub open spec fn name_spec(self) -> Seq<char> {
        match self {
            Role::Target => "target"@,
            Role::Analyzer => "analyzer"@,
            Role::Analysis => "analysis"@,
            Role::Tools => "tools"@,
            Role::Crashes => "crashes"@,
            Role::Reports => "reports"@,
            Role::UniqueReports => "unique_reports"@,
            Role::NoRepro => "no_repro"@,
            Role::InputQueue => "input_queue"@,
        }
    }

    pub fn name(self) -> (r: &'static str)
        ensures
            r@ == self.name_spec(),
    {
        match self {
            Role::Target => "target",
            Role::Analyzer => "analyzer",
            Role::Analysis => "analysis",
            Role::Tools => "tools",
            Role::Crashes => "crashes",
            Role::Reports => "reports",
            Role::UniqueReports => "unique_reports",
            Role::NoRepro => "no_repro",
            Role::InputQueue => "input_queue",
        }
    }

    /// The command-line flag that supplies the role; the input queue has none.
    pub open spec fn flag_spec(self) -> Option<Seq<char>> {
        match self {
            Role::Target => Some(TARGET_EXE@),
            Role::Analyzer => Some(ANALYZER_EXE@),
            Role::Analysis => Some(ANALYSIS_DIR@),
            Role::Tools => Some(TOOLS_DIR@),
            Role::Crashes => Some(CRASHES_DIR@),
            Role::Reports => Some(REPORTS_DIR@),
            Role::UniqueReports => Some(UNIQUE_REPORTS_DIR@),
            Role::NoRepro => Some(NO_REPRO_DIR@),
            Role::InputQueue => None,
        }
    }

    pub fn flag(self) -> (r: Option<&'static str>)
        ensures
            r is Some == self.flag_spec() is Some,
            r is Some ==> r->0@ == self.flag_spec()->0,
    {
        match self {
            Role::Target => Some(TARGET_EXE),
            Role::Analyzer => Some(ANALYZER_EXE),
            Role::Analysis => Some(ANALYSIS_DIR),
            Role::Tools => Some(TOOLS_DIR),
            Role::Crashes => Some(CRASHES_DIR),
            Role::Reports => Some(REPORTS_DIR),
            Role::UniqueReports => Some(UNIQUE_REPORTS_DIR),
            Role::NoRepro => Some(NO_REPRO_DIR),
            Role::InputQueue => None,
        }
    }

    /// A mandatory role must be bound, or no configuration is assembled.
    pub open spec fn mandatory_spec(self) -> bool {
        self == Role::Target || self == Role::Analyzer || self == Role::Analysis
    }

    #[verifier::when_used_as_spec(mandatory_spec)]
    pub fn mandatory(self) -> (b: bool)
        ensures
            b == self.mandatory_spec(),
    {
        match self {
            Role::Target | Role::Analyzer | Role::Analysis => true,
            _ => false,
        }
    }

    /// The roles that are bound to a synchronized directory.
    pub open spec fn directory_spec(self) -> bool {
        self == Role::Analysis || self == Role::Tools || self == Role::Crashes
            || self == Role::Reports || self == Role::UniqueReports || self == Role::NoRepro
    }

    #[verifier::when_used_as_spec(directory_spec)]
    pub fn directory(self) -> (b: bool)
        ensures
            b == self.directory_spec(),
    {
        match self {
            Role::Analysis | Role::Tools | Role::Crashes | Role::Reports | Role::UniqueReports
            | Role::NoRepro => true,
            _ => false,
        }
    }

    /// Two roles exclude each other when at most one of them may be bound:
    /// crash inputs come either from the queue or from the crashes directory.
    pub open spec fn excludes_spec(self, other: Role) -> bool {
        (self == Role::InputQueue && other == Role::Crashes)
            || (self == Role::Crashes && other == Role::InputQueue)
    }

    #[verifier::when_used_as_spec(excludes_spec)]
    pub fn excludes(self, other: Role) -> (b: bool)
        ensures
            b == self.excludes_spec(other),
    {
        match (self, other) {
            (Role::InputQueue, Role::Crashes) => true,
            (Role::Crashes, Role::InputQueue) => true,
            _ => false,
        }
    }
}

} // verus!
