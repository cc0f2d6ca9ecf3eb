//! Smart pre-commit checks for humans and coding agents: the rules that pick,
//! gate, schedule and judge checks, stated and proved.
//!
//! A person commits often and wants quick checks; an agent commits once and
//! wants thorough ones. This library holds what decides between the two, which
//! checks a mode runs and in what stages, whether a check is attempted, how its
//! command is run and what its outcome means. Starting processes and reading
//! files is left to the caller, who asks here what to do next.

pub mod checks;
pub mod cli;
pub mod config;
pub mod engine;
pub mod namemap;
pub mod presets;
pub mod search;
pub mod text;

pub use crate::config::Config;
pub use crate::engine::detector::{Detector, Mode};
pub use crate::engine::error::Error;
pub use crate::engine::runner::{CheckResult, RunResult, Runner};
