//! The checks that come predefined: the ones every configuration starts with,
//! and those that each preset adds or redefines.

use vstd::prelude::*;
use crate::config::{CheckConfig, CheckConfigView, EnabledCondition, EnabledConditionView};
use crate::namemap::{has_name, NameMap};

verus! {

/// The command that looks for conflicts with the main branch.
pub const NO_MERGE_CONFLICTS_COMMAND: &'static str =
    "git fetch origin main --quiet 2>/dev/null || git fetch origin master --quiet \
    2>/dev/null || true\n\
    MAIN_BRANCH=$(git rev-parse --verify origin/main 2>/dev/null && echo \"main\" || \
    echo \"master\")\n\
    BASE=$(git merge-base HEAD origin/$MAIN_BRANCH 2>/dev/null || echo \"\")\n\
    if [ -n \"$BASE\" ]; then\n    \
    if git merge-tree $BASE HEAD origin/$MAIN_BRANCH 2>/dev/null | grep -q \
    \"^<<<<<<<\"; then\n        \
    echo \"\u{274c} Would conflict with $MAIN_BRANCH\"\n        \
    exit 1\n    \
    fi\n\
    fi\n\
    echo \"\u{2713} No conflicts with $MAIN_BRANCH\"";

/// The command that stands in for unit tests until one is configured.
pub const UNCONFIGURED_TEST_COMMAND: &'static str =
    "echo 'No test command configured. Use apc init --preset <lang> or define \
    checks.test-unit.run in your config.'";

/// A definition that runs only where `file` exists.
pub open spec fn needs_file(
    run: Seq<char>,
    description: Seq<char>,
    file: Seq<char>,
) -> CheckConfigView {
    CheckConfigView::plain(run, description, Some(EnabledConditionView::file(file)))
}

/// A definition that runs only where `dir` exists.
pub open spec fn needs_dir(
    run: Seq<char>,
    description: Seq<char>,
    dir: Seq<char>,
) -> CheckConfigView {
    CheckConfigView::plain(run, description, Some(EnabledConditionView::dir(dir)))
}

/// A definition that runs only where `command` is installed.
pub open spec fn needs_command(
    run: Seq<char>,
    description: Seq<char>,
    command: Seq<char>,
) -> CheckConfigView {
    CheckConfigView::plain(run, description, Some(EnabledConditionView::command(command)))
}

/// A definition that always runs.
pub open spec fn always(run: Seq<char>, description: Seq<char>) -> CheckConfigView {
    CheckConfigView::plain(run, description, None)
}

/// Adds a definition under a name that is not yet bound.
fn define(
    checks: &mut NameMap<CheckConfig>,
    name: &str,
    run: &str,
    description: &str,
    enabled_if: Option<EnabledCondition>,
)
    requires
        !has_name(old(checks).pairs(), name@),
    ensures
        final(checks).pairs() == old(checks).pairs().push(
            (
                name@,
                CheckConfigView::plain(
                    run@,
                    description@,
                    match enabled_if {
                        Some(condition) => Some(condition@),
                        None => None,
                    },
                ),
            ),
        ),
{
    checks.insert(name.to_string(), CheckConfig::plain(run, description, enabled_if));
}

/// The checks that every configuration starts with.
pub open spec fn spec_default_checks() -> Seq<(Seq<char>, CheckConfigView)> {
    seq![
        (
            "pre-commit"@,
            needs_file(
                "pre-commit run"@,
                "Run pre-commit on staged files"@,
                ".pre-commit-config.yaml"@,
            ),
        ),
        (
            "pre-commit-all"@,
            needs_file(
                "pre-commit run --all-files"@,
                "Run pre-commit on all files"@,
                ".pre-commit-config.yaml"@,
            ),
        ),
        (
            "test-unit"@,
            always(
                UNCONFIGURED_TEST_COMMAND@,
                "Run unit tests (configure with a preset or custom command)"@,
            ),
        ),
        (
            "no-merge-conflicts"@,
            always(NO_MERGE_CONFLICTS_COMMAND@, "Ensure no merge conflicts with main/master"@),
        ),
    ]
}

/// The checks that every configuration starts with.
pub fn default_checks() -> (checks: NameMap<CheckConfig>)
    ensures
        checks.pairs() == spec_default_checks(),
{
    let mut checks: NameMap<CheckConfig> = NameMap::new();
    proof {
        reveal_strlit("pre-commit");
        reveal_strlit("pre-commit-all");
        reveal_strlit("test-unit");
        reveal_strlit("no-merge-conflicts");
        assert("pre-commit"@.len() == 10);
        assert("pre-commit-all"@.len() == 14);
        assert("test-unit"@.len() == 9);
        assert("no-merge-conflicts"@.len() == 18);
    }
    define(
        &mut checks,
        "pre-commit",
        "pre-commit run",
        "Run pre-commit on staged files",
        Some(EnabledCondition::file(".pre-commit-config.yaml")),
    );
    define(
        &mut checks,
        "pre-commit-all",
        "pre-commit run --all-files",
        "Run pre-commit on all files",
        Some(EnabledCondition::file(".pre-commit-config.yaml")),
    );
    define(
        &mut checks,
        "test-unit",
        UNCONFIGURED_TEST_COMMAND,
        "Run unit tests (configure with a preset or custom command)",
        None,
    );
    define(
        &mut checks,
        "no-merge-conflicts",
        NO_MERGE_CONFLICTS_COMMAND,
        "Ensure no merge conflicts with main/master",
        None,
    );
    assert(checks.pairs() =~= spec_default_checks());
    checks
}

/// The checks of the Python preset.
pub open spec fn spec_python_checks() -> Seq<(Seq<char>, CheckConfigView)> {
    seq![
        (
            "test-unit"@,
            needs_file(
                "pytest -x -q"@,
                "Run unit tests"@,
                "pyproject.toml"@,
            ),
        ),
        (
            "test-integration"@,
            needs_dir(
                "pytest tests/integration/ -v"@,
                "Run integration tests"@,
                "tests/integration"@,
            ),
        ),
        (
            "security-scan"@,
            needs_command(
                "gitleaks detect --source . --no-git"@,
                "Scan for secrets"@,
                "gitleaks"@,
            ),
        ),
        (
            "build-verify"@,
            needs_file(
                "python -m build --no-isolation"@,
                "Verify package builds"@,
                "pyproject.toml"@,
            ),
        ),
    ]
}

/// The checks of the Python preset.
pub fn python_checks() -> (checks: NameMap<CheckConfig>)
    ensures
        checks.pairs() == spec_python_checks(),
{
    let mut checks: NameMap<CheckConfig> = NameMap::new();
    proof {
        reveal_strlit("test-unit");
        reveal_strlit("test-integration");
        reveal_strlit("security-scan");
        reveal_strlit("build-verify");
        assert("test-unit"@.len() == 9);
        assert("test-integration"@.len() == 16);
        assert("security-scan"@.len() == 13);
        assert("build-verify"@.len() == 12);
    }
    define(
        &mut checks,
        "test-unit",
        "pytest -x -q",
        "Run unit tests",
        Some(EnabledCondition::file("pyproject.toml")),
    );
    define(
        &mut checks,
        "test-integration",
        "pytest tests/integration/ -v",
        "Run integration tests",
        Some(EnabledCondition::dir("tests/integration")),
    );
    define(
        &mut checks,
        "security-scan",
        "gitleaks detect --source . --no-git",
        "Scan for secrets",
        Some(EnabledCondition::command("gitleaks")),
    );
    define(
        &mut checks,
        "build-verify",
        "python -m build --no-isolation",
        "Verify package builds",
        Some(EnabledCondition::file("pyproject.toml")),
    );
    assert(checks.pairs() =~= spec_python_checks());
    checks
}

/// The checks of the Node.js and TypeScript preset.
pub open spec fn spec_node_checks() -> Seq<(Seq<char>, CheckConfigView)> {
    seq![
        (
            "lint"@,
            needs_file(
                "npm run lint"@,
                "Run ESLint"@,
                "package.json"@,
            ),
        ),
        (
            "typecheck"@,
            needs_file(
                "npm run typecheck || npx tsc --noEmit"@,
                "Run TypeScript type checking"@,
                "tsconfig.json"@,
            ),
        ),
        (
            "test-unit"@,
            needs_file(
                "npm test"@,
                "Run unit tests"@,
                "package.json"@,
            ),
        ),
        (
            "build-verify"@,
            needs_file(
                "npm run build"@,
                "Verify build works"@,
                "package.json"@,
            ),
        ),
    ]
}

/// The checks of the Node.js and TypeScript preset.
pub fn node_checks() -> (checks: NameMap<CheckConfig>)
    ensures
        checks.pairs() == spec_node_checks(),
{
    let mut checks: NameMap<CheckConfig> = NameMap::new();
    proof {
        reveal_strlit("lint");
        reveal_strlit("typecheck");
        reveal_strlit("test-unit");
        reveal_strlit("build-verify");
        assert("lint"@.len() == 4);
        assert("typecheck"@.len() == 9);
        assert("test-unit"@.len() == 9);
        assert("build-verify"@.len() == 12);
        assert("typecheck"@[1] == 'y');
        assert("test-unit"@[1] == 'e');
    }
    define(
        &mut checks,
        "lint",
        "npm run lint",
        "Run ESLint",
        Some(EnabledCondition::file("package.json")),
    );
    define(
        &mut checks,
        "typecheck",
        "npm run typecheck || npx tsc --noEmit",
        "Run TypeScript type checking",
        Some(EnabledCondition::file("tsconfig.json")),
    );
    define(
        &mut checks,
        "test-unit",
        "npm test",
        "Run unit tests",
        Some(EnabledCondition::file("package.json")),
    );
    define(
        &mut checks,
        "build-verify",
        "npm run build",
        "Verify build works",
        Some(EnabledCondition::file("package.json")),
    );
    assert(checks.pairs() =~= spec_node_checks());
    checks
}

/// The checks of the Rust preset.
pub open spec fn spec_rust_checks() -> Seq<(Seq<char>, CheckConfigView)> {
    seq![
        (
            "fmt-check"@,
            needs_file(
                "cargo fmt --all -- --check"@,
                "Check code formatting"@,
                "Cargo.toml"@,
            ),
        ),
        (
            "clippy"@,
            needs_file(
                "cargo clippy --all-targets --all-features -- -D warnings"@,
                "Run Clippy lints"@,
                "Cargo.toml"@,
            ),
        ),
        (
            "test-unit"@,
            needs_file(
                "cargo test"@,
                "Run unit tests"@,
                "Cargo.toml"@,
            ),
        ),
        (
            "build-verify"@,
            needs_file(
                "cargo build --release"@,
                "Verify release build"@,
                "Cargo.toml"@,
            ),
        ),
    ]
}

/// The checks of the Rust preset.
pub fn rust_checks() -> (checks: NameMap<CheckConfig>)
    ensures
        checks.pairs() == spec_rust_checks(),
{
    let mut checks: NameMap<CheckConfig> = NameMap::new();
    proof {
        reveal_strlit("fmt-check");
        reveal_strlit("clippy");
        reveal_strlit("test-unit");
        reveal_strlit("build-verify");
        assert("fmt-check"@.len() == 9);
        assert("clippy"@.len() == 6);
        assert("test-unit"@.len() == 9);
        assert("build-verify"@.len() == 12);
        assert("fmt-check"@[0] == 'f');
        assert("test-unit"@[0] == 't');
    }
    define(
        &mut checks,
        "fmt-check",
        "cargo fmt --all -- --check",
        "Check code formatting",
        Some(EnabledCondition::file("Cargo.toml")),
    );
    define(
        &mut checks,
        "clippy",
        "cargo clippy --all-targets --all-features -- -D warnings",
        "Run Clippy lints",
        Some(EnabledCondition::file("Cargo.toml")),
    );
    define(
        &mut checks,
        "test-unit",
        "cargo test",
        "Run unit tests",
        Some(EnabledCondition::file("Cargo.toml")),
    );
    define(
        &mut checks,
        "build-verify",
        "cargo build --release",
        "Verify release build",
        Some(EnabledCondition::file("Cargo.toml")),
    );
    assert(checks.pairs() =~= spec_rust_checks());
    checks
}

/// The checks of the Go preset.
pub open spec fn spec_go_checks() -> Seq<(Seq<char>, CheckConfigView)> {
    seq![
        (
            "fmt-check"@,
            needs_file(
                "test -z \"$(gofmt -l .)\""@,
                "Check code formatting"@,
                "go.mod"@,
            ),
        ),
        (
            "lint"@,
            needs_command(
                "golangci-lint run"@,
                "Run golangci-lint"@,
                "golangci-lint"@,
            ),
        ),
        (
            "test-unit"@,
            needs_file(
                "go test ./..."@,
                "Run unit tests"@,
                "go.mod"@,
            ),
        ),
        (
            "build-verify"@,
            needs_file(
                "go build ./..."@,
                "Verify build works"@,
                "go.mod"@,
            ),
        ),
    ]
}

/// The checks of the Go preset.
pub fn go_checks() -> (checks: NameMap<CheckConfig>)
    ensures
        checks.pairs() == spec_go_checks(),
{
    let mut checks: NameMap<CheckConfig> = NameMap::new();
    proof {
        reveal_strlit("fmt-check");
        reveal_strlit("lint");
        reveal_strlit("test-unit");
        reveal_strlit("build-verify");
        assert("fmt-check"@.len() == 9);
        assert("lint"@.len() == 4);
        assert("test-unit"@.len() == 9);
        assert("build-verify"@.len() == 12);
        assert("fmt-check"@[0] == 'f');
        assert("test-unit"@[0] == 't');
    }
    define(
        &mut checks,
        "fmt-check",
        "test -z \"$(gofmt -l .)\"",
        "Check code formatting",
        Some(EnabledCondition::file("go.mod")),
    );
    define(
        &mut checks,
        "lint",
        "golangci-lint run",
        "Run golangci-lint",
        Some(EnabledCondition::command("golangci-lint")),
    );
    define(
        &mut checks,
        "test-unit",
        "go test ./...",
        "Run unit tests",
        Some(EnabledCondition::file("go.mod")),
    );
    define(
        &mut checks,
        "build-verify",
        "go build ./...",
        "Verify build works",
        Some(EnabledCondition::file("go.mod")),
    );
    assert(checks.pairs() =~= spec_go_checks());
    checks
}

} // verus!
