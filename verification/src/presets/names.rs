//! The names of the presets.

use vstd::prelude::*;

verus! {

/// Python projects.
pub const PYTHON: &'static str = "python";

/// Node.js and TypeScript projects.
pub const NODE: &'static str = "node";

/// Rust projects.
pub const RUST: &'static str = "rust";

/// Go projects.
pub const GO: &'static str = "go";

} // verus!
