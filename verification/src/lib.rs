//! Drives the `dotnet outdated` tool for a .NET solution: renders an update
//! policy as the tool's argument vector, reads the JSON report the tool writes
//! into a typed model, and reconciles the tool's exit status with that report
//! into one verdict.
//!
//! Spawning the process, the scratch directory for the report and logging are
//! left to the caller; everything here computes on plain values.
pub mod command;
pub mod decode;
pub mod encode;
pub mod engine;
pub mod json;
pub mod options;
pub mod report;
pub mod schema;
pub mod text;

pub use crate::command::outdated_args;
pub use crate::engine::{diagnose, reconcile, EngineError, IndicatedUpdateRequirement, ToolRun};
pub use crate::options::{DotnetOutdatedOptions, PreRelease, VersionLock};
pub use crate::report::{Dependency, DotnetOutdatedData, Framework, Project, Severity};
pub use crate::decode::{parse_report, ReportError};
