//! Configuration and scheduling core of a local, generic crash-analysis task.
//!
//! A task is described either by command-line flags or by a declarative
//! template. Both descriptions are turned into one plan, and the plan is
//! materialized step by step into an execution-ready configuration: the
//! library decides what has to be attached or resolved next, the caller
//! performs that work and reports how it ended.

pub mod roles;
pub mod ids;
pub mod env;
pub mod config;
pub mod assembly;
pub mod outcome;
pub mod monitor;
pub mod step;
pub mod cli;
pub mod matches;
pub mod generic;
pub mod template;
pub mod laws;

pub use crate::cli::{args, build_shared_args};
pub use crate::generic::build_analysis_config;
pub use crate::template::Analysis;
