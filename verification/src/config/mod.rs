//! The configuration: which checks each mode runs, with what time budget, and
//! how each check is defined.

pub mod catalog;

use vstd::prelude::*;
use crate::config::catalog::{
    default_checks, go_checks, node_checks, python_checks, rust_checks, spec_default_checks,
    spec_go_checks, spec_node_checks, spec_python_checks, spec_rust_checks,
};
use crate::engine::duration::{readable, Duration};
use crate::engine::error::Error;
use crate::namemap::{has_name, put_all, NameMap, ViewClone};
use crate::search::first_where;
use crate::text::{blank, concat, decimal, is_blank, push_decimal, str_eq};

verus! {

/// The name of the configuration file.
pub const CONFIG_FILE_NAME: &'static str = "agent-precommit.toml";

/// The view of an optional text.
pub open spec fn opt_text(text: Option<String>) -> Option<Seq<char>> {
    match text {
        Some(t) => Some(t@),
        None => None,
    }
}

/// When a check is attempted at all. Every condition that is present must
/// hold.
#[derive(Debug)]
pub struct EnabledCondition {
    /// A file that must exist, relative to the repository root.
    pub file_exists: Option<String>,
    /// A directory that must exist, relative to the repository root.
    pub dir_exists: Option<String>,
    /// A command that must be on the search path.
    pub command_exists: Option<String>,
}

/// The view of an [`EnabledCondition`].
pub struct EnabledConditionView {
    pub file_exists: Option<Seq<char>>,
    pub dir_exists: Option<Seq<char>>,
    pub command_exists: Option<Seq<char>>,
}

impl View for EnabledCondition {
    type V = EnabledConditionView;

    open spec fn view(&self) -> EnabledConditionView {
        EnabledConditionView {
            file_exists: opt_text(self.file_exists),
            dir_exists: opt_text(self.dir_exists),
            command_exists: opt_text(self.command_exists),
        }
    }
}

impl EnabledConditionView {
    /// The condition that asks for nothing.
    pub open spec fn none() -> Self {
        EnabledConditionView { file_exists: None, dir_exists: None, command_exists: None }
    }

    /// The condition that asks for one file.
    pub open spec fn file(path: Seq<char>) -> Self {
        EnabledConditionView { file_exists: Some(path), dir_exists: None, command_exists: None }
    }

    /// The condition that asks for one directory.
    pub open spec fn dir(path: Seq<char>) -> Self {
        EnabledConditionView { file_exists: None, dir_exists: Some(path), command_exists: None }
    }

    /// The condition that asks for one command.
    pub open spec fn command(name: Seq<char>) -> Self {
        EnabledConditionView { file_exists: None, dir_exists: None, command_exists: Some(name) }
    }
}

fn clone_opt_text(text: &Option<String>) -> (copy: Option<String>)
    ensures
        opt_text(copy) == opt_text(*text),
{
    match text {
        Some(t) => Some(t.clone()),
        None => None,
    }
}

impl Default for EnabledCondition {
    fn default() -> (condition: Self)
        ensures
            condition@ == EnabledConditionView::none(),
    {
        EnabledCondition { file_exists: None, dir_exists: None, command_exists: None }
    }
}

impl Clone for EnabledCondition {
    fn clone(&self) -> (copy: Self)
        ensures
            copy@ == self@,
    {
        EnabledCondition {
            file_exists: clone_opt_text(&self.file_exists),
            dir_exists: clone_opt_text(&self.dir_exists),
            command_exists: clone_opt_text(&self.command_exists),
        }
    }
}

impl EnabledCondition {
    /// The condition that asks for one file.
    pub fn file(path: &str) -> (condition: Self)
        ensures
            condition@ == EnabledConditionView::file(path@),
    {
        EnabledCondition {
            file_exists: Some(path.to_string()),
            dir_exists: None,
            command_exists: None,
        }
    }

    /// The condition that asks for one directory.
    pub fn dir(path: &str) -> (condition: Self)
        ensures
            condition@ == EnabledConditionView::dir(path@),
    {
        EnabledCondition {
            file_exists: None,
            dir_exists: Some(path.to_string()),
            command_exists: None,
        }
    }

    /// The condition that asks for one command.
    pub fn command(name: &str) -> (condition: Self)
        ensures
            condition@ == EnabledConditionView::command(name@),
    {
        EnabledCondition {
            file_exists: None,
            dir_exists: None,
            command_exists: Some(name.to_string()),
        }
    }
}

/// The definition of one check.
#[derive(Debug)]
pub struct CheckConfig {
    /// The shell command to run.
    pub run: String,
    /// What the check is for.
    pub description: String,
    /// When the check is attempted; always, where absent.
    pub enabled_if: Option<EnabledCondition>,
    /// Environment variables to set for the command.
    pub env: NameMap<String>,
}

/// The view of a [`CheckConfig`]: its texts, and its environment as pairs in
/// insertion order.
pub struct CheckConfigView {
    pub run: Seq<char>,
    pub description: Seq<char>,
    pub enabled_if: Option<EnabledConditionView>,
    pub env: Seq<(Seq<char>, Seq<char>)>,
}

impl View for CheckConfig {
    type V = CheckConfigView;

    open spec fn view(&self) -> CheckConfigView {
        CheckConfigView {
            run: self.run@,
            description: self.description@,
            enabled_if: match self.enabled_if {
                Some(condition) => Some(condition@),
                None => None,
            },
            env: self.env.pairs(),
        }
    }
}

impl CheckConfigView {
    /// The definition that a bare command stands for: the command is run as
    /// it is and describes itself.
    pub open spec fn from_command(command: Seq<char>) -> Self {
        CheckConfigView {
            run: command,
            description: command,
            enabled_if: None,
            env: Seq::empty(),
        }
    }

    /// A definition without environment variables.
    pub open spec fn plain(
        run: Seq<char>,
        description: Seq<char>,
        enabled_if: Option<EnabledConditionView>,
    ) -> Self {
        CheckConfigView { run, description, enabled_if, env: Seq::empty() }
    }
}

impl CheckConfig {
    /// The definition that a bare command stands for.
    pub fn from_command(cmd: String) -> (check: Self)
        ensures
            check@ == CheckConfigView::from_command(cmd@),
    {
        CheckConfig { description: cmd.clone(), run: cmd, enabled_if: None, env: NameMap::new() }
    }

    /// A definition without environment variables.
    pub fn plain(run: &str, description: &str, enabled_if: Option<EnabledCondition>) -> (check:
        Self)
        ensures
            check@ == CheckConfigView::plain(
                run@,
                description@,
                match enabled_if {
                    Some(condition) => Some(condition@),
                    None => None,
                },
            ),
    {
        CheckConfig {
            run: run.to_string(),
            description: description.to_string(),
            enabled_if,
            env: NameMap::new(),
        }
    }
}

impl Default for CheckConfig {
    fn default() -> (check: Self)
        ensures
            check@ == CheckConfigView::from_command(Seq::empty()),
    {
        CheckConfig {
            run: String::new(),
            description: String::new(),
            enabled_if: None,
            env: NameMap::new(),
        }
    }
}

impl Clone for CheckConfig {
    fn clone(&self) -> (copy: Self)
        ensures
            copy@ == self@,
    {
        CheckConfig {
            run: self.run.clone(),
            description: self.description.clone(),
            enabled_if: match &self.enabled_if {
                Some(condition) => Some(condition.clone()),
                None => None,
            },
            env: self.env.duplicate(),
        }
    }
}

impl ViewClone for CheckConfig {
    fn view_clone(&self) -> (copy: Self) {
        self.clone()
    }
}

/// What a mode runs: which checks, within what time, and whether the first
/// failure ends the run.
#[derive(Debug, Clone)]
pub struct ModeConfig {
    /// The names of the checks, in the order in which they run.
    pub checks: Vec<String>,
    /// The time budget of each check, such as `30s`.
    pub timeout: String,
    /// Whether the first failure ends the run.
    pub fail_fast: bool,
}

/// The view of a [`ModeConfig`].
pub struct ModeConfigView {
    pub checks: Seq<Seq<char>>,
    pub timeout: Seq<char>,
    pub fail_fast: bool,
}

impl View for ModeConfig {
    type V = ModeConfigView;

    open spec fn view(&self) -> ModeConfigView {
        ModeConfigView {
            checks: self.checks.deep_view(),
            timeout: self.timeout@,
            fail_fast: self.fail_fast,
        }
    }
}

impl ModeConfigView {
    /// What the human mode runs unless configured otherwise.
    pub open spec fn default_human() -> Self {
        ModeConfigView { checks: seq!["pre-commit"@], timeout: "30s"@, fail_fast: true }
    }
}

impl ModeConfig {
    /// What the human mode runs unless configured otherwise.
    pub fn default_human() -> (mode: Self)
        ensures
            mode@ == ModeConfigView::default_human(),
    {
        let mut checks: Vec<String> = Vec::new();
        checks.push("pre-commit".to_string());
        let mode = ModeConfig { checks, timeout: "30s".to_string(), fail_fast: true };
        assert(mode.checks.deep_view() =~= seq!["pre-commit"@]);
        mode
    }
}

impl Default for ModeConfig {
    fn default() -> (mode: Self)
        ensures
            mode@ == ModeConfigView::default_human(),
    {
        ModeConfig::default_human()
    }
}

/// What the agent mode runs, with the groups of checks that may run side by
/// side.
#[derive(Debug, Clone)]
pub struct AgentModeConfig {
    /// The names of the checks.
    pub checks: Vec<String>,
    /// The time budget of each check, such as `15m`.
    pub timeout: String,
    /// Whether a failure keeps later groups from starting.
    pub fail_fast: bool,
    /// The groups, in the order in which they run; none means one group of all
    /// checks.
    pub parallel_groups: Vec<Vec<String>>,
}

/// The view of an [`AgentModeConfig`].
pub struct AgentModeConfigView {
    pub checks: Seq<Seq<char>>,
    pub timeout: Seq<char>,
    pub fail_fast: bool,
    pub parallel_groups: Seq<Seq<Seq<char>>>,
}

impl View for AgentModeConfig {
    type V = AgentModeConfigView;

    open spec fn view(&self) -> AgentModeConfigView {
        AgentModeConfigView {
            checks: self.checks.deep_view(),
            timeout: self.timeout@,
            fail_fast: self.fail_fast,
            parallel_groups: self.parallel_groups.deep_view(),
        }
    }
}

impl AgentModeConfigView {
    /// What the agent mode runs unless configured otherwise.
    pub open spec fn default_agent() -> Self {
        AgentModeConfigView {
            checks: seq!["pre-commit-all"@, "no-merge-conflicts"@, "test-unit"@],
            timeout: "15m"@,
            fail_fast: false,
            parallel_groups: Seq::empty(),
        }
    }
}

impl Default for AgentModeConfig {
    fn default() -> (mode: Self)
        ensures
            mode@ == AgentModeConfigView::default_agent(),
    {
        let mut checks: Vec<String> = Vec::new();
        checks.push("pre-commit-all".to_string());
        checks.push("no-merge-conflicts".to_string());
        checks.push("test-unit".to_string());
        let mode = AgentModeConfig {
            checks,
            timeout: "15m".to_string(),
            fail_fast: false,
            parallel_groups: Vec::new(),
        };
        assert(mode.checks.deep_view() =~= seq![
            "pre-commit-all"@,
            "no-merge-conflicts"@,
            "test-unit"@,
        ]);
        assert(mode.parallel_groups.deep_view() =~= Seq::<Seq<Seq<char>>>::empty());
        mode
    }
}

/// How the mode is detected.
#[derive(Debug, Clone)]
pub struct DetectionConfig {
    /// A mode to use whatever the environment says.
    pub mode: Option<String>,
    /// Further environment variables that mark an agent.
    pub agent_env_vars: Vec<String>,
}

/// The view of a [`DetectionConfig`].
pub struct DetectionConfigView {
    pub mode: Option<Seq<char>>,
    pub agent_env_vars: Seq<Seq<char>>,
}

impl View for DetectionConfig {
    type V = DetectionConfigView;

    open spec fn view(&self) -> DetectionConfigView {
        DetectionConfigView {
            mode: opt_text(self.mode),
            agent_env_vars: self.agent_env_vars.deep_view(),
        }
    }
}

impl Default for DetectionConfig {
    fn default() -> (detection: Self)
        ensures
            detection@ == (DetectionConfigView { mode: None, agent_env_vars: Seq::empty() }),
    {
        let detection = DetectionConfig { mode: None, agent_env_vars: Vec::new() };
        assert(detection.agent_env_vars.deep_view() =~= Seq::<Seq<char>>::empty());
        detection
    }
}

/// How the tool works with the pre-commit framework.
#[derive(Debug, Clone)]
pub struct IntegrationConfig {
    /// Whether the framework is used.
    pub pre_commit: bool,
    /// Where its configuration file is.
    pub pre_commit_path: String,
}

/// The view of an [`IntegrationConfig`].
pub struct IntegrationConfigView {
    pub pre_commit: bool,
    pub pre_commit_path: Seq<char>,
}

impl View for IntegrationConfig {
    type V = IntegrationConfigView;

    open spec fn view(&self) -> IntegrationConfigView {
        IntegrationConfigView {
            pre_commit: self.pre_commit,
            pre_commit_path: self.pre_commit_path@,
        }
    }
}

impl Default for IntegrationConfig {
    fn default() -> (integration: Self)
        ensures
            integration@ == (IntegrationConfigView {
                pre_commit: false,
                pre_commit_path: ".pre-commit-config.yaml"@,
            }),
    {
        IntegrationConfig {
            pre_commit: false,
            pre_commit_path: ".pre-commit-config.yaml".to_string(),
        }
    }
}

/// The whole configuration.
#[derive(Debug, Clone)]
pub struct Config {
    /// How the mode is detected.
    pub detection: DetectionConfig,
    /// How the tool works with other tools.
    pub integration: IntegrationConfig,
    /// What the human mode runs.
    pub human: ModeConfig,
    /// What the agent mode runs.
    pub agent: AgentModeConfig,
    /// The definitions of the checks, by name.
    pub checks: NameMap<CheckConfig>,
}

/// The view of a [`Config`]; the definitions are pairs in insertion order.
pub struct ConfigView {
    pub detection: DetectionConfigView,
    pub integration: IntegrationConfigView,
    pub human: ModeConfigView,
    pub agent: AgentModeConfigView,
    pub checks: Seq<(Seq<char>, CheckConfigView)>,
}

impl View for Config {
    type V = ConfigView;

    open spec fn view(&self) -> ConfigView {
        ConfigView {
            detection: self.detection@,
            integration: self.integration@,
            human: self.human@,
            agent: self.agent@,
            checks: self.checks.pairs(),
        }
    }
}

/// Appends a name to a list of names.
pub(crate) fn push_name(names: &mut Vec<String>, name: &str)
    ensures
        final(names).deep_view() == old(names).deep_view().push(name@),
{
    names.push(name.to_string());
    assert(names.deep_view() =~= old(names).deep_view().push(name@));
}

/// The names that `table` does not define.
pub open spec fn undefined_in<T>(table: Seq<(Seq<char>, T)>) -> spec_fn(Seq<char>) -> bool {
    |name: Seq<char>| !has_name(table, name)
}

/// The names that are not among `allowed`.
pub open spec fn not_among(allowed: Seq<Seq<char>>) -> spec_fn(Seq<char>) -> bool {
    |name: Seq<char>| !allowed.contains(name)
}

/// The groups that hold a name that is not among `allowed`.
pub open spec fn strays_from(allowed: Seq<Seq<char>>) -> spec_fn(Seq<Seq<char>>) -> bool {
    |group: Seq<Seq<char>>| first_where(group, not_among(allowed), 0) < group.len()
}

/// The definitions whose command is blank.
pub open spec fn without_command() -> spec_fn((Seq<char>, CheckConfigView)) -> bool {
    |definition: (Seq<char>, CheckConfigView)| is_blank(definition.1.run)
}

/// The message for a check that a mode names and nothing defines.
pub open spec fn undefined_message(name: Seq<char>) -> Seq<char> {
    "Check '"@ + name + "' is referenced but not defined in [checks]"@
}

/// The message for a check that a group names and the agent mode does not.
pub open spec fn stray_message(name: Seq<char>) -> Seq<char> {
    "Check '"@ + name + "' is in a parallel group but not in agent.checks"@
}

impl ConfigView {
    /// The configuration that holds where nothing is configured.
    pub open spec fn default_config() -> Self {
        ConfigView {
            detection: DetectionConfigView { mode: None, agent_env_vars: Seq::empty() },
            integration: IntegrationConfigView {
                pre_commit: false,
                pre_commit_path: ".pre-commit-config.yaml"@,
            },
            human: ModeConfigView::default_human(),
            agent: AgentModeConfigView::default_agent(),
            checks: spec_default_checks(),
        }
    }

    /// The default configuration with other agent checks and further
    /// definitions.
    pub open spec fn with_preset(
        agent_checks: Seq<Seq<char>>,
        definitions: Seq<(Seq<char>, CheckConfigView)>,
    ) -> Self {
        let base = Self::default_config();
        ConfigView {
            detection: base.detection,
            integration: base.integration,
            human: base.human,
            agent: AgentModeConfigView {
                checks: agent_checks,
                timeout: base.agent.timeout,
                fail_fast: base.agent.fail_fast,
                parallel_groups: base.agent.parallel_groups,
            },
            checks: put_all(base.checks, definitions),
        }
    }

    /// The configuration of a preset; the default one for an unknown name.
    pub open spec fn for_preset(preset: Seq<char>) -> Self {
        if preset == "python"@ {
            Self::with_preset(
                seq![
                    "pre-commit-all"@,
                    "no-merge-conflicts"@,
                    "test-unit"@,
                    "test-integration"@,
                    "security-scan"@,
                    "build-verify"@,
                ],
                spec_python_checks(),
            )
        } else if preset == "node"@ || preset == "nodejs"@ || preset == "typescript"@ {
            Self::with_preset(
                seq![
                    "pre-commit-all"@,
                    "no-merge-conflicts"@,
                    "lint"@,
                    "typecheck"@,
                    "test-unit"@,
                    "build-verify"@,
                ],
                spec_node_checks(),
            )
        } else if preset == "rust"@ {
            Self::with_preset(
                seq![
                    "no-merge-conflicts"@,
                    "fmt-check"@,
                    "clippy"@,
                    "test-unit"@,
                    "build-verify"@,
                ],
                spec_rust_checks(),
            )
        } else if preset == "go"@ {
            Self::with_preset(
                seq!["no-merge-conflicts"@, "fmt-check"@, "lint"@, "test-unit"@, "build-verify"@],
                spec_go_checks(),
            )
        } else {
            Self::default_config()
        }
    }

    /// What is wrong with the configuration, as the field at fault and the
    /// message: the first of a human timeout that `humantime` does not read as
    /// a span, an agent timeout that it does not read as a span, a human check
    /// that nothing defines, an agent check that nothing defines, a group that
    /// names a check the agent mode does not run, and a definition whose
    /// command is blank. `None` where nothing is wrong.
    pub open spec fn flaw(self) -> Option<(Seq<char>, Seq<char>)> {
        self.flaw_given(
            Duration::spec_parse(self.human.timeout) is Some,
            Duration::spec_parse(self.agent.timeout) is Some,
        )
    }

    /// What is wrong with the configuration, given whether the human timeout
    /// and the agent timeout were read as spans; see [`ConfigView::flaw`].
    pub open spec fn flaw_given(self, human_is_span: bool, agent_is_span: bool) -> Option<
        (Seq<char>, Seq<char>),
    > {
        let human_at = first_where(self.human.checks, undefined_in(self.checks), 0);
        let agent_at = first_where(self.agent.checks, undefined_in(self.checks), 0);
        let group_at = first_where(self.agent.parallel_groups, strays_from(self.agent.checks), 0);
        let blank_at = first_where(self.checks, without_command(), 0);
        if !human_is_span {
            Some(("human.timeout"@, "Invalid duration: "@ + self.human.timeout))
        } else if !agent_is_span {
            Some(("agent.timeout"@, "Invalid duration: "@ + self.agent.timeout))
        } else if human_at < self.human.checks.len() {
            Some(("human.checks"@, undefined_message(self.human.checks[human_at])))
        } else if agent_at < self.agent.checks.len() {
            Some(("agent.checks"@, undefined_message(self.agent.checks[agent_at])))
        } else if group_at < self.agent.parallel_groups.len() {
            let group = self.agent.parallel_groups[group_at];
            let name_at = first_where(group, not_among(self.agent.checks), 0);
            Some(
                (
                    "agent.parallel_groups["@ + decimal(group_at as nat) + "]"@,
                    stray_message(group[name_at]),
                ),
            )
        } else if blank_at < self.checks.len() {
            Some(
                (
                    "checks."@ + self.checks[blank_at].0 + ".run"@,
                    "Check command cannot be empty"@,
                ),
            )
        } else {
            None
        }
    }
}

/// Whether `names` holds `name`.
pub fn contains_name(names: &Vec<String>, name: &str) -> (found: bool)
    ensures
        found == names.deep_view().contains(name@),
{
    let mut i: usize = 0;
    while i < names.len()
        invariant
            i <= names.len(),
            forall|j: int| 0 <= j < i ==> (#[trigger] names.deep_view()[j]) != name@,
        decreases names.len() - i,
    {
        if str_eq(names[i].as_str(), name) {
            assert(names.deep_view()[i as int] == name@);
            return true;
        }
        i = i + 1;
    }
    false
}

/// The position of the first of `names` that `table` does not define.
fn find_undefined(names: &Vec<String>, table: &NameMap<CheckConfig>) -> (found: Option<usize>)
    ensures
        match found {
            Some(i) => i < names.len() && i == first_where(
                names.deep_view(),
                undefined_in(table.pairs()),
                0,
            ),
            None => first_where(names.deep_view(), undefined_in(table.pairs()), 0) == names.len(),
        },
{
    let ghost bad = undefined_in(table.pairs());
    let ghost items = names.deep_view();
    let mut i: usize = 0;
    while i < names.len()
        invariant
            i <= names.len(),
            items == names.deep_view(),
            bad == undefined_in(table.pairs()),
            first_where(items, bad, 0) == first_where(items, bad, i as int),
        decreases names.len() - i,
    {
        if !table.contains_key(names[i].as_str()) {
            assert(bad(items[i as int]));
            return Some(i);
        }
        assert(!bad(items[i as int]));
        i = i + 1;
    }
    None
}

/// The position of the first of `group` that is not among `allowed`.
fn find_stray(group: &Vec<String>, allowed: &Vec<String>) -> (found: Option<usize>)
    ensures
        match found {
            Some(i) => i < group.len() && i == first_where(
                group.deep_view(),
                not_among(allowed.deep_view()),
                0,
            ),
            None => first_where(group.deep_view(), not_among(allowed.deep_view()), 0)
                == group.len(),
        },
{
    let ghost bad = not_among(allowed.deep_view());
    let ghost items = group.deep_view();
    let mut i: usize = 0;
    while i < group.len()
        invariant
            i <= group.len(),
            items == group.deep_view(),
            bad == not_among(allowed.deep_view()),
            first_where(items, bad, 0) == first_where(items, bad, i as int),
        decreases group.len() - i,
    {
        if !contains_name(allowed, group[i].as_str()) {
            assert(bad(items[i as int]));
            return Some(i);
        }
        assert(!bad(items[i as int]));
        i = i + 1;
    }
    None
}

/// The first group that holds a name that is not among `allowed`, with the
/// position of that name in it.
fn find_stray_group(groups: &Vec<Vec<String>>, allowed: &Vec<String>) -> (found: Option<
    (usize, usize),
>)
    ensures
        match found {
            Some((g, n)) => g < groups.len() && g == first_where(
                groups.deep_view(),
                strays_from(allowed.deep_view()),
                0,
            ) && n < groups[g as int].len() && n == first_where(
                groups.deep_view()[g as int],
                not_among(allowed.deep_view()),
                0,
            ),
            None => first_where(groups.deep_view(), strays_from(allowed.deep_view()), 0)
                == groups.len(),
        },
{
    let ghost bad = strays_from(allowed.deep_view());
    let ghost items = groups.deep_view();
    let mut g: usize = 0;
    while g < groups.len()
        invariant
            g <= groups.len(),
            items == groups.deep_view(),
            bad == strays_from(allowed.deep_view()),
            first_where(items, bad, 0) == first_where(items, bad, g as int),
        decreases groups.len() - g,
    {
        assert(items[g as int] == groups[g as int].deep_view());
        match find_stray(&groups[g], allowed) {
            Some(n) => {
                assert(bad(items[g as int]));
                return Some((g, n));
            },
            None => {
                assert(!bad(items[g as int]));
            },
        }
        g = g + 1;
    }
    None
}

/// The position of the first definition whose command is blank.
fn find_blank(table: &NameMap<CheckConfig>) -> (found: Option<usize>)
    ensures
        match found {
            Some(i) => i < table.pairs().len() && i == first_where(
                table.pairs(),
                without_command(),
                0,
            ),
            None => first_where(table.pairs(), without_command(), 0) == table.pairs().len(),
        },
{
    let ghost bad = without_command();
    let ghost items = table.pairs();
    let count = table.len();
    let mut i: usize = 0;
    while i < count
        invariant
            i <= count,
            count == items.len(),
            items == table.pairs(),
            bad == without_command(),
            first_where(items, bad, 0) == first_where(items, bad, i as int),
        decreases count - i,
    {
        if blank(table.value_at(i).run.as_str()) {
            assert(bad(items[i as int]));
            return Some(i);
        }
        assert(!bad(items[i as int]));
        i = i + 1;
    }
    None
}

/// The error for a check that a mode names and nothing defines.
fn undefined_check(field: &str, name: &str) -> (error: Error)
    ensures
        error matches Error::ConfigInvalid { field: f, message: m } && f@ == field@ && m@
            == undefined_message(name@),
{
    let head = concat("Check '", name);
    let message = concat(head.as_str(), "' is referenced but not defined in [checks]");
    Error::ConfigInvalid { field: field.to_string(), message }
}

/// The error for a timeout that cannot be read.
fn invalid_duration(field: &str, timeout: &str) -> (error: Error)
    ensures
        error matches Error::ConfigInvalid { field: f, message: m } && f@ == field@ && m@
            == "Invalid duration: "@ + timeout@,
{
    Error::ConfigInvalid {
        field: field.to_string(),
        message: concat("Invalid duration: ", timeout),
    }
}

impl Default for Config {
    fn default() -> (config: Self)
        ensures
            config@ == ConfigView::default_config(),
    {
        Config {
            detection: DetectionConfig::default(),
            integration: IntegrationConfig::default(),
            human: ModeConfig::default_human(),
            agent: AgentModeConfig::default(),
            checks: default_checks(),
        }
    }
}

impl Config {
    /// Whether something is wrong with the configuration; see
    /// [`ConfigView::flaw`] for what is looked at, and in which order. The two
    /// timeouts are read as `humantime` reads them, and may hold eleven digits
    /// each at most; a caller that has a longer one reads it by its own means
    /// and asks [`Config::validate_with_timeouts`].
    pub fn validate(&self) -> (outcome: Result<(), Error>)
        requires
            readable(self@.human.timeout),
            readable(self@.agent.timeout),
        ensures
            match outcome {
                Ok(()) => self@.flaw() is None,
                Err(error) => error matches Error::ConfigInvalid { field, message }
                    && self@.flaw() == Some((field@, message@)),
            },
    {
        let human = Duration::parse(self.human.timeout.as_str());
        let agent = Duration::parse(self.agent.timeout.as_str());
        self.validate_with_timeouts(human, agent)
    }

    /// Whether something is wrong with the configuration, given what the human
    /// timeout and the agent timeout were read as, `None` standing for a text
    /// that is no span; see [`ConfigView::flaw_given`] for what is looked at,
    /// and in which order.
    pub fn validate_with_timeouts(
        &self,
        human_timeout: Option<Duration>,
        agent_timeout: Option<Duration>,
    ) -> (outcome: Result<(), Error>)
        ensures
            match outcome {
                Ok(()) => self@.flaw_given(human_timeout is Some, agent_timeout is Some) is None,
                Err(error) => error matches Error::ConfigInvalid { field, message }
                    && self@.flaw_given(human_timeout is Some, agent_timeout is Some) == Some(
                    (field@, message@),
                ),
            },
    {
        if human_timeout.is_none() {
            return Err(invalid_duration("human.timeout", self.human.timeout.as_str()));
        }
        if agent_timeout.is_none() {
            return Err(invalid_duration("agent.timeout", self.agent.timeout.as_str()));
        }
        if let Some(i) = find_undefined(&self.human.checks, &self.checks) {
            return Err(undefined_check("human.checks", self.human.checks[i].as_str()));
        }
        if let Some(i) = find_undefined(&self.agent.checks, &self.checks) {
            return Err(undefined_check("agent.checks", self.agent.checks[i].as_str()));
        }
        if let Some((g, n)) = find_stray_group(&self.agent.parallel_groups, &self.agent.checks) {
            let mut field = "agent.parallel_groups[".to_string();
            push_decimal(&mut field, g);
            let field = concat(field.as_str(), "]");
            let head = concat("Check '", self.agent.parallel_groups[g][n].as_str());
            let message = concat(
                head.as_str(),
                "' is in a parallel group but not in agent.checks",
            );
            return Err(Error::ConfigInvalid { field, message });
        }
        if let Some(i) = find_blank(&self.checks) {
            let head = concat("checks.", self.checks.name_at(i));
            let field = concat(head.as_str(), ".run");
            return Err(
                Error::ConfigInvalid {
                    field,
                    message: "Check command cannot be empty".to_string(),
                },
            );
        }
        Ok(())
    }

    /// The configuration itself where nothing is wrong with it, and what is
    /// wrong with it otherwise; see [`Config::validate`], also for the
    /// timeouts that it reads.
    pub fn validated(self) -> (outcome: Result<Config, Error>)
        requires
            readable(self@.human.timeout),
            readable(self@.agent.timeout),
        ensures
            match outcome {
                Ok(config) => self@.flaw() is None && config == self,
                Err(error) => error matches Error::ConfigInvalid { field, message }
                    && self@.flaw() == Some((field@, message@)),
            },
    {
        match self.validate() {
            Ok(()) => Ok(self),
            Err(error) => Err(error),
        }
    }

    /// What loading comes to where a missing file is no fault: the
    /// configuration that was loaded, the default one where no file was found,
    /// and any other error as it is.
    pub fn or_default(loaded: Result<Config, Error>) -> (outcome: Result<Config, Error>)
        ensures
            match loaded {
                Ok(config) => outcome == Ok::<Config, Error>(config),
                Err(Error::ConfigNotFound { .. }) => outcome matches Ok(config) && config@
                    == ConfigView::default_config(),
                Err(error) => outcome == Err::<Config, Error>(error),
            },
    {
        match loaded {
            Ok(config) => Ok(config),
            Err(Error::ConfigNotFound { .. }) => Ok(Config::default()),
            Err(error) => Err(error),
        }
    }

    /// The configuration of a preset: the default one with the preset's agent
    /// checks and definitions. An unknown name gives the default
    /// configuration.
    pub fn for_preset(preset: &str) -> (config: Self)
        ensures
            config@ == ConfigView::for_preset(preset@),
    {
        let mut config = Config::default();
        let mut names: Vec<String> = Vec::new();
        assert(names.deep_view() =~= Seq::<Seq<char>>::empty());
        if str_eq(preset, "python") {
            push_name(&mut names, "pre-commit-all");
            push_name(&mut names, "no-merge-conflicts");
            push_name(&mut names, "test-unit");
            push_name(&mut names, "test-integration");
            push_name(&mut names, "security-scan");
            push_name(&mut names, "build-verify");
            assert(names.deep_view() =~= seq![
                "pre-commit-all"@,
                "no-merge-conflicts"@,
                "test-unit"@,
                "test-integration"@,
                "security-scan"@,
                "build-verify"@,
            ]);
            config.agent.checks = names;
            config.checks.extend(python_checks());
        } else if str_eq(preset, "node") || str_eq(preset, "nodejs") || str_eq(
            preset,
            "typescript",
        ) {
            push_name(&mut names, "pre-commit-all");
            push_name(&mut names, "no-merge-conflicts");
            push_name(&mut names, "lint");
            push_name(&mut names, "typecheck");
            push_name(&mut names, "test-unit");
            push_name(&mut names, "build-verify");
            assert(names.deep_view() =~= seq![
                "pre-commit-all"@,
                "no-merge-conflicts"@,
                "lint"@,
                "typecheck"@,
                "test-unit"@,
                "build-verify"@,
            ]);
            config.agent.checks = names;
            config.checks.extend(node_checks());
        } else if str_eq(preset, "rust") {
            push_name(&mut names, "no-merge-conflicts");
            push_name(&mut names, "fmt-check");
            push_name(&mut names, "clippy");
            push_name(&mut names, "test-unit");
            push_name(&mut names, "build-verify");
            assert(names.deep_view() =~= seq![
                "no-merge-conflicts"@,
                "fmt-check"@,
                "clippy"@,
                "test-unit"@,
                "build-verify"@,
            ]);
            config.agent.checks = names;
            config.checks.extend(rust_checks());
        } else if str_eq(preset, "go") {
            push_name(&mut names, "no-merge-conflicts");
            push_name(&mut names, "fmt-check");
            push_name(&mut names, "lint");
            push_name(&mut names, "test-unit");
            push_name(&mut names, "build-verify");
            assert(names.deep_view() =~= seq![
                "no-merge-conflicts"@,
                "fmt-check"@,
                "lint"@,
                "test-unit"@,
                "build-verify"@,
            ]);
            config.agent.checks = names;
            config.checks.extend(go_checks());
        }
        config
    }
}

} // verus!
