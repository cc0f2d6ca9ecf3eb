//! What each command does about what it finds. The caller reads files and the
//! environment, asks here, and carries out the answer.

use vstd::prelude::*;
use crate::config::{Config, ConfigView, IntegrationConfigView};
use crate::engine::detector::Mode;
use crate::engine::error::Error;
use crate::engine::duration::Duration;
use crate::engine::runner::{CheckResult, RunResult};
use crate::namemap::{has_name, pairs_to_map};
use crate::text::{contains, occurs_in, str_eq};

verus! {

/// The hook that runs the checks before a commit.
pub const HOOK_SCRIPT: &'static str =
    "#!/bin/sh\n\
    # agent-precommit hook - installed by `apc install`\n\
    # https://github.com/agent-precommit/agent-precommit\n\
    \n\
    # Skip if APC_SKIP is set\n\
    if [ \"$APC_SKIP\" = \"1\" ]; then\n    \
    exit 0\n\
    fi\n\
    \n\
    # Run agent-precommit\n\
    exec apc run\n";

/// The line by which a hook of this tool is known.
pub const HOOK_MARKER: &'static str = "# agent-precommit hook";

/// The name of the hook.
pub const HOOK_NAME: &'static str = "pre-commit";

/// The name under which a foreign hook is kept when it is replaced.
pub const HOOK_BACKUP_NAME: &'static str = "pre-commit.bak";

/// What is said of a check that has no description.
pub const NO_DESCRIPTION: &'static str = "(no description)";

/// How many lines of the output of a failed check are shown.
pub const FAILED_OUTPUT_LINES: usize = 20;

/// Whether all checks are skipped: `APC_SKIP` is set to `1`.
pub fn skip_requested(apc_skip: Option<&str>) -> (skip: bool)
    ensures
        skip == (apc_skip matches Some(value) && value@ == "1"@),
{
    match apc_skip {
        Some(value) => str_eq(value, "1"),
        None => false,
    }
}

/// The mode that the command line asks for; a text that names no mode is an
/// invalid configuration of the field `mode`.
pub fn mode_override(text: &str) -> (mode: Result<Mode, Error>)
    ensures
        match mode {
            Ok(m) => Mode::spec_parse(text@) == Some(m),
            Err(error) => Mode::spec_parse(text@) is None && (
            error matches Error::ConfigInvalid { field, message } && field@ == "mode"@ && message@
                == Mode::parse_error(text@)),
        },
{
    match Mode::parse(text) {
        Ok(mode) => Ok(mode),
        Err(message) => Err(Error::ConfigInvalid { field: "mode".to_string(), message }),
    }
}

/// Whether `init` leaves an existing configuration alone: it does unless it
/// is forced.
pub fn init_refused(config_exists: bool, force: bool) -> (refused: bool)
    ensures
        refused == (config_exists && !force),
{
    config_exists && !force
}

/// The configuration that `init` writes: that of the preset where one is
/// named, and otherwise the default one, with the pre-commit framework
/// switched on where the repository configures it.
pub open spec fn spec_init_config(
    preset: Option<Seq<char>>,
    precommit_configured: bool,
) -> ConfigView {
    match preset {
        Some(name) => ConfigView::for_preset(name),
        None => ConfigView {
            integration: IntegrationConfigView {
                pre_commit: precommit_configured,
                pre_commit_path: ".pre-commit-config.yaml"@,
            },
            ..ConfigView::default_config()
        },
    }
}

/// The configuration that `init` writes.
pub fn init_config(preset: Option<&str>, precommit_configured: bool) -> (config: Config)
    ensures
        config@ == spec_init_config(
            match preset {
                Some(name) => Some(name@),
                None => None,
            },
            precommit_configured,
        ),
{
    match preset {
        Some(name) => Config::for_preset(name),
        None => {
            let mut config = Config::default();
            if precommit_configured {
                config.integration.pre_commit = true;
            }
            config
        },
    }
}

/// What `install` does about the hook that is in place.
#[derive(Debug, Clone, Copy, PartialEq, Eq, Structural)]
pub enum InstallAction {
    /// The hook of this tool is in place: nothing is done.
    AlreadyInstalled,
    /// No hook is in place: the hook is written.
    Write,
    /// A foreign hook is in place and is given up: it is kept under the backup
    /// name, and the hook is written.
    BackupAndWrite,
}

/// What `install` does, given the text of the hook that is in place, if one
/// is, and whether a foreign hook may be replaced. A foreign hook that may not
/// be replaced is the error `HookExists`.
pub fn install_action(existing: Option<&str>, force: bool, hook_path: &str) -> (action: Result<
    InstallAction,
    Error,
>)
    ensures
        match existing {
            None => action == Ok::<InstallAction, Error>(InstallAction::Write),
            Some(text) => if occurs_in(HOOK_MARKER@, text@) {
                action == Ok::<InstallAction, Error>(InstallAction::AlreadyInstalled)
            } else if force {
                action == Ok::<InstallAction, Error>(InstallAction::BackupAndWrite)
            } else {
                action matches Err(Error::HookExists { path }) && path@ == hook_path@
            },
        },
{
    match existing {
        None => Ok(InstallAction::Write),
        Some(text) => {
            if contains(text, HOOK_MARKER) {
                Ok(InstallAction::AlreadyInstalled)
            } else if force {
                Ok(InstallAction::BackupAndWrite)
            } else {
                Err(Error::HookExists { path: hook_path.to_string() })
            }
        },
    }
}

/// What `uninstall` does about the hook that is in place.
#[derive(Debug, Clone, Copy, PartialEq, Eq, Structural)]
pub enum UninstallAction {
    /// No hook is in place: nothing is done, and that is a success.
    NothingInstalled,
    /// A foreign hook is in place: it is left alone, and that is a failure.
    Foreign,
    /// The hook of this tool is in place: it is removed.
    Remove,
}

/// What `uninstall` does, given the text of the hook that is in place, if one
/// is.
pub fn uninstall_action(existing: Option<&str>) -> (action: UninstallAction)
    ensures
        action == match existing {
            None => UninstallAction::NothingInstalled,
            Some(text) => if occurs_in(HOOK_MARKER@, text@) {
                UninstallAction::Remove
            } else {
                UninstallAction::Foreign
            },
        },
{
    match existing {
        None => UninstallAction::NothingInstalled,
        Some(text) => if contains(text, HOOK_MARKER) {
            UninstallAction::Remove
        } else {
            UninstallAction::Foreign
        },
    }
}

/// Which lists `list` shows, the human one and the agent one: both where no
/// mode is named, and otherwise the one of the mode.
pub fn lists_shown(mode: Option<Mode>) -> (shown: (bool, bool))
    ensures
        shown.0 == (mode is None || mode == Some(Mode::Human)),
        shown.1 == (mode is None || mode == Some(Mode::Agent) || mode == Some(Mode::Ci)),
{
    match mode {
        None => (true, true),
        Some(Mode::Human) => (true, false),
        Some(Mode::Agent) => (false, true),
        Some(Mode::Ci) => (false, true),
    }
}

/// What `list` says of a check: its description, or that it has none where
/// nothing defines the check or the description is empty.
pub open spec fn spec_check_description(config: ConfigView, name: Seq<char>) -> Seq<char> {
    if has_name(config.checks, name) && pairs_to_map(config.checks)[name].description.len() > 0 {
        pairs_to_map(config.checks)[name].description
    } else {
        NO_DESCRIPTION@
    }
}

/// What `list` says of the check called `name`.
pub fn check_description<'a>(config: &'a Config, name: &str) -> (text: &'a str)
    ensures
        text@ == spec_check_description(config@, name@),
{
    match config.checks.get(name) {
        Some(check) => if check.description.as_str().is_empty() {
            NO_DESCRIPTION
        } else {
            check.description.as_str()
        },
        None => NO_DESCRIPTION,
    }
}

/// The exit code of a run: 0 where every result passed, 1 otherwise.
pub fn run_exit_code(report: &RunResult) -> (code: u8)
    ensures
        code == if report.spec_success() {
            0u8
        } else {
            1u8
        },
{
    if report.success() {
        0
    } else {
        1
    }
}

/// The report of a check that was run alone: the result by itself.
pub fn single_report(mode: Mode, result: CheckResult) -> (report: RunResult)
    ensures
        report.mode == mode,
        report.checks@ == seq![result],
        report.duration == (Duration { secs: 0, nanos: 0 }),
{
    let mut checks: Vec<CheckResult> = Vec::new();
    checks.push(result);
    RunResult { mode, checks, duration: Duration::zero() }
}

} // verus!
