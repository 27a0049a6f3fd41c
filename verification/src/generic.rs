//! An analysis task described by command-line flags.

use vstd::prelude::*;
use crate::assembly::{Action, Assembly, Mode, Plan, QueueSource};
use crate::config::{CommonConfig, ConfigError, QueueClient};
use crate::env::{entries_map, environment, first_invalid};
use crate::matches::{
    first_of,
    lookup_path,
    lookup_text,
    lookup_texts,
    matched_paths,
    matched_text,
    option_view,
    text_views,
    values_of,
};
use crate::roles::{
    Role,
    ANALYSIS_DIR,
    ANALYZER_ENV,
    ANALYZER_EXE,
    ANALYZER_OPTIONS,
    CRASHES_DIR,
    NO_REPRO_DIR,
    REPORTS_DIR,
    TARGET_EXE,
    TARGET_OPTIONS,
    TOOLS_DIR,
    UNIQUE_REPORTS_DIR,
};

verus! {

/// What the flags of an analysis task were given, as plain values.
#[derive(Clone, Debug, PartialEq, Eq)]
pub struct CliValues {
    pub target_exe: Option<String>,
    pub target_options: Vec<String>,
    pub analyzer_exe: Option<String>,
    pub analyzer_options: Vec<String>,
    /// The environment of the analyzer, one `key=value` entry each.
    pub analyzer_env: Vec<String>,
    pub analysis: Option<String>,
    pub tools: Option<String>,
    pub crashes: Option<String>,
    pub reports: Option<String>,
    pub no_repro: Option<String>,
    pub unique_reports: Option<String>,
}

impl CliValues {
    /// Whether these are the values that `matches` holds: of a flag that
    /// takes one value the first, of a list every one.
    pub open spec fn read_from(self, matches: clap::ArgMatches) -> bool {
        let text = matched_text(matches);
        let paths = matched_paths(matches);
        &&& option_view(self.target_exe) == first_of(text, TARGET_EXE@)
        &&& text_views(self.target_options@) == values_of(text, TARGET_OPTIONS@)
        &&& option_view(self.analyzer_exe) == first_of(text, ANALYZER_EXE@)
        &&& text_views(self.analyzer_options@) == values_of(text, ANALYZER_OPTIONS@)
        &&& text_views(self.analyzer_env@) == values_of(text, ANALYZER_ENV@)
        &&& option_view(self.analysis) == first_of(paths, ANALYSIS_DIR@)
        &&& option_view(self.tools) == first_of(paths, TOOLS_DIR@)
        &&& option_view(self.crashes) == first_of(paths, CRASHES_DIR@)
        &&& option_view(self.reports) == first_of(paths, REPORTS_DIR@)
        &&& option_view(self.no_repro) == first_of(paths, NO_REPRO_DIR@)
        &&& option_view(self.unique_reports) == first_of(paths, UNIQUE_REPORTS_DIR@)
    }

    pub fn read(matches: &clap::ArgMatches) -> (r: CliValues)
        ensures
            r.read_from(*matches),
    {
        CliValues {
            target_exe: lookup_text(matches, TARGET_EXE),
            target_options: lookup_texts(matches, TARGET_OPTIONS),
            analyzer_exe: lookup_text(matches, ANALYZER_EXE),
            analyzer_options: lookup_texts(matches, ANALYZER_OPTIONS),
            analyzer_env: lookup_texts(matches, ANALYZER_ENV),
            analysis: lookup_path(matches, ANALYSIS_DIR),
            tools: lookup_path(matches, TOOLS_DIR),
            crashes: lookup_path(matches, CRASHES_DIR),
            reports: lookup_path(matches, REPORTS_DIR),
            no_repro: lookup_path(matches, NO_REPRO_DIR),
            unique_reports: lookup_path(matches, UNIQUE_REPORTS_DIR),
        }
    }

    /// The error that stops a task before anything is bound: a missing
    /// target, a missing analyzer, or an entry of the environment that has
    /// no `=`, in this order.
    pub open spec fn refusal(self) -> Option<ConfigError> {
        if self.target_exe is None {
            Some(ConfigError::MissingField(Role::Target))
        } else if self.analyzer_exe is None {
            Some(ConfigError::MissingField(Role::Analyzer))
        } else if entries_map(self.analyzer_env@) is None {
            Some(ConfigError::InvalidKeyValue(self.analyzer_env@[first_invalid(self.analyzer_env@)]))
        } else {
            None
        }
    }

    /// Whether `plan` is the plan that these values and `input_queue` make:
    /// every value is taken as it is, the environment is read from its
    /// entries, and a queue counts as supplied.
    pub open spec fn plans(self, input_queue: Option<QueueClient>, plan: Plan) -> bool {
        &&& plan.mode == Mode::Cli
        &&& Some(plan.target_exe) == self.target_exe
        &&& plan.target_options == self.target_options
        &&& Some(plan.analyzer_exe) == self.analyzer_exe
        &&& plan.analyzer_options == self.analyzer_options
        &&& plan.analyzer_env.wf()
        &&& Some(plan.analyzer_env@) == entries_map(self.analyzer_env@)
        &&& plan.input_queue == match input_queue {
            Some(queue) => QueueSource::Supplied(queue),
            None => QueueSource::Absent,
        }
        &&& plan.analysis == self.analysis
        &&& plan.tools == self.tools
        &&& plan.crashes == self.crashes
        &&& plan.reports == self.reports
        &&& plan.no_repro == self.no_repro
        &&& plan.unique_reports == self.unique_reports
    }

    /// Whether `step` is the first step of the task that these values
    /// describe: the refusal, where there is one, else the beginning of the
    /// assembly of their plan.
    pub open spec fn begins(
        self,
        input_queue: Option<QueueClient>,
        common: CommonConfig,
        step: (Assembly, Action),
    ) -> bool {
        match self.refusal() {
            Some(error) => step == (Assembly::Failed, Action::Abort(error)),
            None => exists|plan: Plan| #[trigger]
                self.plans(input_queue, plan) && step == Assembly::begin_spec(plan, common),
        }
    }

    pub fn plan(self, input_queue: Option<QueueClient>) -> (r: Result<Plan, ConfigError>)
        ensures
            match r {
                Ok(plan) => self.refusal() is None && self.plans(input_queue, plan),
                Err(error) => self.refusal() == Some(error),
            },
    {
        let target_exe = match self.target_exe {
            Some(path) => path,
            None => {
                return Err(ConfigError::MissingField(Role::Target));
            },
        };
        let analyzer_exe = match self.analyzer_exe {
            Some(path) => path,
            None => {
                return Err(ConfigError::MissingField(Role::Analyzer));
            },
        };
        let analyzer_env = match environment(&self.analyzer_env) {
            Ok(env) => env,
            Err(entry) => {
                return Err(ConfigError::InvalidKeyValue(entry));
            },
        };
        let queue = match input_queue {
            Some(queue) => QueueSource::Supplied(queue),
            None => QueueSource::Absent,
        };
        Ok(
            Plan {
                mode: Mode::Cli,
                analyzer_exe,
                analyzer_options: self.analyzer_options,
                analyzer_env,
                target_exe,
                target_options: self.target_options,
                input_queue: queue,
                crashes: self.crashes,
                analysis: self.analysis,
                tools: self.tools,
                reports: self.reports,
                unique_reports: self.unique_reports,
                no_repro: self.no_repro,
            },
        )
    }

    /// The first step of the task that these values describe.
    pub fn begin(self, input_queue: Option<QueueClient>, common: CommonConfig) -> (r: (
        Assembly,
        Action,
    ))
        ensures
            self.begins(input_queue, common, r),
            r.0.wf(),
    {
        match self.plan(input_queue) {
            Ok(plan) => {
                let step = Assembly::begin(plan, common);
                step
            },
            Err(error) => (Assembly::Failed, Action::Abort(error)),
        }
    }
}

/// The first step of the analysis task that `args` describes, fed from
/// `input_queue` where there is one, under the identity `common`.
///
/// Without a target the task is refused before anything is bound.
pub fn build_analysis_config(
    args: &clap::ArgMatches,
    input_queue: Option<QueueClient>,
    common: CommonConfig,
) -> (r: (Assembly, Action))
    ensures
        exists|values: CliValues| #[trigger]
            values.read_from(*args) && values.begins(input_queue, common, r),
        first_of(matched_text(*args), TARGET_EXE@) is None ==> r == (
            Assembly::Failed,
            Action::Abort(ConfigError::MissingField(Role::Target)),
        ),
        r.0.wf(),
{
    let values = CliValues::read(args);
    values.begin(input_queue, common)
}

} // verus!
