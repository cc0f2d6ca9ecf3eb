//! The engine: mode detection, command outcomes, check scheduling, errors and
//! repository paths.

pub mod detector;
pub mod duration;
pub mod error;
pub mod executor;
pub mod git;
pub mod laws;
pub(crate) mod paths;
pub mod runner;
