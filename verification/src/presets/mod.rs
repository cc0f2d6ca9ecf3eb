//! The presets: ready-made configurations for common kinds of project.

pub mod names;

use vstd::prelude::*;
use crate::text::str_eq;

verus! {

/// The names of the presets.
pub open spec fn spec_available() -> Seq<Seq<char>> {
    seq![names::PYTHON@, names::NODE@, names::RUST@, names::GO@]
}

/// What a preset is for; `Unknown preset` for a name that is none.
pub open spec fn spec_description(name: Seq<char>) -> Seq<char> {
    if name == names::PYTHON@ {
        "Python projects (pytest, ruff, mypy, pre-commit integration)"@
    } else if name == names::NODE@ {
        "Node.js/TypeScript projects (npm, eslint, jest, tsc)"@
    } else if name == names::RUST@ {
        "Rust projects (cargo fmt, clippy, cargo test)"@
    } else if name == names::GO@ {
        "Go projects (gofmt, golangci-lint, go test)"@
    } else {
        "Unknown preset"@
    }
}

/// The names of the presets.
pub fn available() -> (presets: Vec<&'static str>)
    ensures
        presets.deep_view() == spec_available(),
{
    let mut presets: Vec<&'static str> = Vec::new();
    presets.push(names::PYTHON);
    presets.push(names::NODE);
    presets.push(names::RUST);
    presets.push(names::GO);
    assert(presets.deep_view() =~= spec_available());
    presets
}

/// Whether `name` is the name of a preset.
pub fn is_valid(name: &str) -> (valid: bool)
    ensures
        valid == spec_available().contains(name@),
{
    let valid = str_eq(name, names::PYTHON) || str_eq(name, names::NODE) || str_eq(
        name,
        names::RUST,
    ) || str_eq(name, names::GO);
    proof {
        let all = spec_available();
        if valid {
            assert(all[0] == names::PYTHON@ && all[1] == names::NODE@ && all[2] == names::RUST@
                && all[3] == names::GO@);
        }
    }
    valid
}

/// What the preset `name` is for.
pub fn description(name: &str) -> (text: &'static str)
    ensures
        text@ == spec_description(name@),
{
    if str_eq(name, names::PYTHON) {
        "Python projects (pytest, ruff, mypy, pre-commit integration)"
    } else if str_eq(name, names::NODE) {
        "Node.js/TypeScript projects (npm, eslint, jest, tsc)"
    } else if str_eq(name, names::RUST) {
        "Rust projects (cargo fmt, clippy, cargo test)"
    } else if str_eq(name, names::GO) {
        "Go projects (gofmt, golangci-lint, go test)"
    } else {
        "Unknown preset"
    }
}

} // verus!
