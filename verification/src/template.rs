//! An analysis task described by a template.

use vstd::prelude::*;
use crate::assembly::{Action, Assembly, Mode, Plan, QueueSource};
use crate::config::CommonConfig;
use crate::env::EnvMap;

verus! {

/// The declarative description of an analysis task: every role as a plain
/// path, nothing bound yet. A template may be run any number of times.
#[derive(Clone, Debug, PartialEq, Eq)]
pub struct Analysis {
    pub analyzer_exe: String,
    pub analyzer_options: Vec<String>,
    pub analyzer_env: EnvMap,
    pub target_exe: String,
    pub target_options: Vec<String>,
    pub input_queue: Option<String>,
    pub crashes: Option<String>,
    pub analysis: String,
    pub tools: Option<String>,
    pub reports: Option<String>,
    pub unique_reports: Option<String>,
    pub no_repro: Option<String>,
}

impl Analysis {
    pub open spec fn wf(self) -> bool {
        self.analyzer_env.wf()
    }

    /// The plan of a run of the template: its fields as they are, the
    /// analysis directory declared, and the queue, where one is named, yet
    /// to be attached.
    pub open spec fn plan_spec(self) -> Plan {
        Plan {
            mode: Mode::Template,
            analyzer_exe: self.analyzer_exe,
            analyzer_options: self.analyzer_options,
            analyzer_env: self.analyzer_env,
            target_exe: self.target_exe,
            target_options: self.target_options,
            input_queue: match self.input_queue {
                Some(locator) => QueueSource::Declared(locator),
                None => QueueSource::Absent,
            },
            crashes: self.crashes,
            analysis: Some(self.analysis),
            tools: self.tools,
            reports: self.reports,
            unique_reports: self.unique_reports,
            no_repro: self.no_repro,
        }
    }

    pub fn plan(self) -> (r: Plan)
        ensures
            r == self.plan_spec(),
    {
        Plan {
            mode: Mode::Template,
            analyzer_exe: self.analyzer_exe,
            analyzer_options: self.analyzer_options,
            analyzer_env: self.analyzer_env,
            target_exe: self.target_exe,
            target_options: self.target_options,
            input_queue: match self.input_queue {
                Some(locator) => QueueSource::Declared(locator),
                None => QueueSource::Absent,
            },
            crashes: self.crashes,
            analysis: Some(self.analysis),
            tools: self.tools,
            reports: self.reports,
            unique_reports: self.unique_reports,
            no_repro: self.no_repro,
        }
    }

    /// The first step of a run of the template in a context whose identity
    /// is `common`: the queue is attached first, then the roles are bound,
    /// and the run is scheduled under an identifier of its own.
    pub fn run(self, common: CommonConfig) -> (r: (Assembly, Action))
        ensures
            r == Assembly::begin_spec(self.plan_spec(), common),
    {
        Assembly::begin(self.plan(), common)
    }
}

} // verus!
