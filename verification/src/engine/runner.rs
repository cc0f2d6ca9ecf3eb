//! Running checks: what each check comes to, which checks a mode runs and in
//! what stages, and the report of a run.

use vstd::prelude::*;
use crate::config::{opt_text, CheckConfig, CheckConfigView, Config, EnabledConditionView};
use crate::engine::detector::Mode;
use crate::engine::duration::{readable, Duration};
use crate::engine::error::Error;
use crate::engine::executor::{
    CommandOutput, CommandOutputView, ExecuteOptions, ExecuteOptionsView, Executor,
    DEFAULT_TIMEOUT_SECS,
};
use crate::engine::git::GitRepo;
use crate::engine::paths::{joined_path, path_exists, path_is_dir};
use crate::text::str_eq;
use crate::namemap::{has_name, pairs_to_map};
use crate::search::{count_where, keep_where, lemma_count_where};

verus! {

/// What one check came to.
#[derive(Debug, Clone)]
pub struct CheckResult {
    /// The name of the check.
    pub name: String,
    /// Whether the check passed. A skipped check passes.
    pub passed: bool,
    /// The outcome of its command; an empty success for a skipped check.
    pub output: CommandOutput,
    /// Whether the check was skipped.
    pub skipped: bool,
    /// Why it was skipped, where it was.
    pub skip_reason: Option<String>,
}

/// The view of a [`CheckResult`].
pub struct CheckResultView {
    pub name: Seq<char>,
    pub passed: bool,
    pub output: CommandOutputView,
    pub skipped: bool,
    pub skip_reason: Option<Seq<char>>,
}

impl View for CheckResult {
    type V = CheckResultView;

    open spec fn view(&self) -> CheckResultView {
        CheckResultView {
            name: self.name@,
            passed: self.passed,
            output: self.output@,
            skipped: self.skipped,
            skip_reason: match self.skip_reason {
                Some(reason) => Some(reason@),
                None => None,
            },
        }
    }
}

impl CheckResultView {
    /// The result of a check that was not attempted: it passes, and stands for
    /// a command that wrote nothing and took no time.
    pub open spec fn skipped(name: Seq<char>, reason: Seq<char>) -> Self {
        CheckResultView {
            name,
            passed: true,
            output: CommandOutputView::exited(
                Some(0),
                Seq::empty(),
                Seq::empty(),
                Duration { secs: 0, nanos: 0 },
            ),
            skipped: true,
            skip_reason: Some(reason),
        }
    }

    /// The result of a check whose command ran: it passes exactly when the
    /// command succeeded.
    pub open spec fn ran(name: Seq<char>, output: CommandOutputView) -> Self {
        CheckResultView {
            name,
            passed: output.success(),
            output,
            skipped: false,
            skip_reason: None,
        }
    }

    /// What holds of every result that this library makes: a skipped check
    /// passes with an empty success that took no time, and a check that ran
    /// passes exactly when its command succeeded.
    pub open spec fn wf(self) -> bool {
        if self.skipped {
            self.passed && self.output.exit_code == 0 && !self.output.timed_out
                && self.output.duration == (Duration { secs: 0, nanos: 0 })
                && self.skip_reason is Some
        } else {
            self.passed == self.output.success() && self.skip_reason is None
        }
    }
}

impl CheckResult {
    /// The result of a check that was not attempted.
    pub fn skipped(name: String, reason: String) -> (result: Self)
        ensures
            result@ == CheckResultView::skipped(name@, reason@),
            result@.wf(),
    {
        CheckResult {
            name,
            passed: true,
            output: CommandOutput::exited(Some(0), String::new(), String::new(), Duration::zero()),
            skipped: true,
            skip_reason: Some(reason),
        }
    }

    /// The result of a check whose command ran.
    pub fn ran(name: String, output: CommandOutput) -> (result: Self)
        ensures
            result@ == CheckResultView::ran(name@, output@),
            result@.wf(),
    {
        let passed = output.success();
        CheckResult { name, passed, output, skipped: false, skip_reason: None }
    }
}

/// The results that failed.
pub open spec fn failed() -> spec_fn(CheckResult) -> bool {
    |result: CheckResult| !result.passed
}

/// The results that were skipped.
pub open spec fn was_skipped() -> spec_fn(CheckResult) -> bool {
    |result: CheckResult| result.skipped
}

/// The results of checks that ran and passed.
pub open spec fn ran_and_passed() -> spec_fn(CheckResult) -> bool {
    |result: CheckResult| result.passed && !result.skipped
}

/// The report of a run.
#[derive(Debug)]
pub struct RunResult {
    /// The mode that was used.
    pub mode: Mode,
    /// The results, stage by stage in the order of the stages, and within a
    /// stage in the order of its checks.
    pub checks: Vec<CheckResult>,
    /// How long the run took.
    pub duration: Duration,
}

impl RunResult {
    /// A run succeeds when every result passed; so does a run of nothing.
    pub open spec fn spec_success(&self) -> bool {
        forall|i: int| 0 <= i < self.checks@.len() ==> (#[trigger] self.checks@[i]).passed
    }

    /// Whether every result passed.
    pub fn success(&self) -> (ok: bool)
        ensures
            ok == self.spec_success(),
            ok == (count_where(self.checks@, failed()) == 0),
            self.checks@.len() == 0 ==> ok,
    {
        let mut i: usize = 0;
        while i < self.checks.len()
            invariant
                i <= self.checks.len(),
                forall|j: int| 0 <= j < i ==> (#[trigger] self.checks@[j]).passed,
            decreases self.checks.len() - i,
        {
            if !self.checks[i].passed {
                proof {
                    lemma_count_where(self.checks@, failed());
                    assert(failed()(self.checks@[i as int]));
                }
                return false;
            }
            i = i + 1;
        }
        proof {
            lemma_count_where(self.checks@, failed());
            assert forall|j: int| 0 <= j < self.checks@.len() implies !failed()(
                #[trigger] self.checks@[j],
            ) by {}
        }
        true
    }

    /// How many checks ran and passed.
    pub fn passed_count(&self) -> (count: usize)
        ensures
            count == count_where(self.checks@, ran_and_passed()),
    {
        let mut count: usize = 0;
        let mut i: usize = 0;
        assert(self.checks@.take(0) =~= Seq::<CheckResult>::empty());
        while i < self.checks.len()
            invariant
                i <= self.checks.len(),
                count <= i,
                count == count_where(self.checks@.take(i as int), ran_and_passed()),
            decreases self.checks.len() - i,
        {
            assert(self.checks@.take(i + 1).drop_last() =~= self.checks@.take(i as int));
            if self.checks[i].passed && !self.checks[i].skipped {
                count = count + 1;
            }
            i = i + 1;
        }
        assert(self.checks@.take(i as int) =~= self.checks@);
        count
    }

    /// How many checks failed.
    pub fn failed_count(&self) -> (count: usize)
        ensures
            count == count_where(self.checks@, failed()),
    {
        let mut count: usize = 0;
        let mut i: usize = 0;
        assert(self.checks@.take(0) =~= Seq::<CheckResult>::empty());
        while i < self.checks.len()
            invariant
                i <= self.checks.len(),
                count <= i,
                count == count_where(self.checks@.take(i as int), failed()),
            decreases self.checks.len() - i,
        {
            assert(self.checks@.take(i + 1).drop_last() =~= self.checks@.take(i as int));
            if !self.checks[i].passed {
                count = count + 1;
            }
            i = i + 1;
        }
        assert(self.checks@.take(i as int) =~= self.checks@);
        count
    }

    /// How many checks were skipped.
    pub fn skipped_count(&self) -> (count: usize)
        ensures
            count == count_where(self.checks@, was_skipped()),
    {
        let mut count: usize = 0;
        let mut i: usize = 0;
        assert(self.checks@.take(0) =~= Seq::<CheckResult>::empty());
        while i < self.checks.len()
            invariant
                i <= self.checks.len(),
                count <= i,
                count == count_where(self.checks@.take(i as int), was_skipped()),
            decreases self.checks.len() - i,
        {
            assert(self.checks@.take(i + 1).drop_last() =~= self.checks@.take(i as int));
            if self.checks[i].skipped {
                count = count + 1;
            }
            i = i + 1;
        }
        assert(self.checks@.take(i as int) =~= self.checks@);
        count
    }

    /// The results that failed, in the order of the report.
    pub fn failed_checks(&self) -> (found: Vec<&CheckResult>)
        ensures
            found@.len() == keep_where(self.checks@, failed()).len(),
            forall|i: int|
                0 <= i < found@.len() ==> *(#[trigger] found@[i]) == keep_where(
                    self.checks@,
                    failed(),
                )[i],
    {
        let mut found: Vec<&CheckResult> = Vec::new();
        let mut i: usize = 0;
        assert(self.checks@.take(0) =~= Seq::<CheckResult>::empty());
        while i < self.checks.len()
            invariant
                i <= self.checks.len(),
                found@.len() == keep_where(self.checks@.take(i as int), failed()).len(),
                forall|j: int|
                    0 <= j < found@.len() ==> *(#[trigger] found@[j]) == keep_where(
                        self.checks@.take(i as int),
                        failed(),
                    )[j],
            decreases self.checks.len() - i,
        {
            assert(self.checks@.take(i + 1).drop_last() =~= self.checks@.take(i as int));
            if !self.checks[i].passed {
                found.push(&self.checks[i]);
            }
            i = i + 1;
        }
        assert(self.checks@.take(i as int) =~= self.checks@);
        found
    }
}

/// Whether a check is attempted, given what was found: no condition means
/// yes; otherwise every condition that is present must hold. A file or a
/// directory is looked for below the repository root, so without a repository
/// neither is found.
pub open spec fn spec_enabled(
    condition: Option<EnabledConditionView>,
    in_repo: bool,
    file_found: bool,
    dir_found: bool,
    command_found: bool,
) -> bool {
    match condition {
        None => true,
        Some(c) => (c.file_exists is Some ==> in_repo && file_found) && (c.dir_exists is Some
            ==> in_repo && dir_found) && (c.command_exists is Some ==> command_found),
    }
}

/// Whether a check is attempted, given what was found of its conditions:
/// whether there is a repository, whether the file and the directory exist
/// below its root, and whether the command is installed. What is said of a
/// condition that is absent does not matter.
pub fn enabled_given(
    check: &CheckConfig,
    in_repo: bool,
    file_found: bool,
    dir_found: bool,
    command_found: bool,
) -> (enabled: bool)
    ensures
        enabled == spec_enabled(check@.enabled_if, in_repo, file_found, dir_found, command_found),
{
    match &check.enabled_if {
        None => true,
        Some(condition) => {
            if condition.file_exists.is_some() && !(in_repo && file_found) {
                false
            } else if condition.dir_exists.is_some() && !(in_repo && dir_found) {
                false
            } else if condition.command_exists.is_some() && !command_found {
                false
            } else {
                true
            }
        },
    }
}

/// What is looked up to tell whether a check is attempted: the path of the
/// file, the path of the directory, and the name of the command. A subject is
/// absent where the check does not ask for it, and the two paths also where
/// there is no repository to look in.
#[derive(Debug)]
pub struct Lookups {
    /// The path that must exist.
    pub file: Option<String>,
    /// The path that must be a directory.
    pub dir: Option<String>,
    /// The command that must be on the search path.
    pub command: Option<String>,
}

/// The view of [`Lookups`].
pub struct LookupsView {
    pub file: Option<Seq<char>>,
    pub dir: Option<Seq<char>>,
    pub command: Option<Seq<char>>,
}

impl View for Lookups {
    type V = LookupsView;

    open spec fn view(&self) -> LookupsView {
        LookupsView {
            file: opt_text(self.file),
            dir: opt_text(self.dir),
            command: opt_text(self.command),
        }
    }
}

/// The path below the root of a repository that a condition speaks of, where
/// there is a condition and a repository.
pub open spec fn below_root(relative: Option<Seq<char>>, root: Option<Seq<char>>) -> Option<
    Seq<char>,
> {
    match (relative, root) {
        (Some(path), Some(root)) => Some(joined_path(root, path)),
        _ => None,
    }
}

/// What is looked up for a condition in a repository with this root: the file
/// and the directory are adjoined to the root, and the command is taken as it
/// is.
pub open spec fn spec_lookups(
    condition: Option<EnabledConditionView>,
    root: Option<Seq<char>>,
) -> LookupsView {
    match condition {
        Some(c) => LookupsView {
            file: below_root(c.file_exists, root),
            dir: below_root(c.dir_exists, root),
            command: c.command_exists,
        },
        None => LookupsView { file: None, dir: None, command: None },
    }
}

/// The path below the root of `repo` that a condition speaks of.
fn path_in(relative: &Option<String>, repo: Option<&GitRepo>) -> (path: Option<String>)
    ensures
        opt_text(path) == below_root(
            opt_text(*relative),
            match repo {
                Some(r) => Some(r.spec_root()),
                None => None,
            },
        ),
{
    match (relative, repo) {
        (Some(path), Some(repo)) => Some(repo.path_below(path.as_str())),
        _ => None,
    }
}

/// What is looked up to tell whether `check` is attempted in `repo`.
pub fn lookups(check: &CheckConfig, repo: Option<&GitRepo>) -> (subjects: Lookups)
    ensures
        subjects@ == spec_lookups(
            check@.enabled_if,
            match repo {
                Some(r) => Some(r.spec_root()),
                None => None,
            },
        ),
{
    match &check.enabled_if {
        Some(condition) => Lookups {
            file: path_in(&condition.file_exists, repo),
            dir: path_in(&condition.dir_exists, repo),
            command: match &condition.command_exists {
                Some(command) => Some(command.clone()),
                None => None,
            },
        },
        None => Lookups { file: None, dir: None, command: None },
    }
}

/// Whether a check is attempted. What is looked up is what [`lookups`] gives:
/// the conditions are looked at in turn, the file first, then the directory,
/// then the command, each just before the check would run, and the first
/// that fails settles the matter.
///
/// What is found on disk and on the search path is not known beforehand, so
/// the result is stated for whatever is found: it is what [`spec_enabled`]
/// makes of some findings. That settles the checks without a condition, which
/// are always attempted, and those that ask for a file or a directory where
/// there is no repository, which never are.
pub fn check_enabled(check: &CheckConfig, repo: Option<&GitRepo>) -> (enabled: bool)
    ensures
        exists|file_found: bool, dir_found: bool, command_found: bool|
            enabled == #[trigger] spec_enabled(
                check@.enabled_if,
                repo is Some,
                file_found,
                dir_found,
                command_found,
            ),
        check@.enabled_if is None ==> enabled,
        check@.enabled_if == Some(EnabledConditionView::none()) ==> enabled,
        repo is None && (check@.enabled_if matches Some(c) && (c.file_exists is Some
            || c.dir_exists is Some)) ==> !enabled,
{
    let condition = match &check.enabled_if {
        None => {
            assert(true == spec_enabled(check@.enabled_if, repo is Some, true, true, true));
            return true;
        },
        Some(condition) => condition,
    };
    let ghost in_repo = repo is Some;
    let subjects = lookups(check, repo);
    if condition.file_exists.is_some() {
        let file_found = match &subjects.file {
            Some(path) => path_exists(path.as_str()),
            None => false,
        };
        if !file_found {
            assert(false == spec_enabled(check@.enabled_if, in_repo, false, true, true));
            return false;
        }
    }
    if condition.dir_exists.is_some() {
        let dir_found = match &subjects.dir {
            Some(path) => path_is_dir(path.as_str()),
            None => false,
        };
        if !dir_found {
            assert(false == spec_enabled(check@.enabled_if, in_repo, true, false, true));
            return false;
        }
    }
    if let Some(command) = &subjects.command {
        if !Executor::command_exists(command.as_str()) {
            assert(false == spec_enabled(check@.enabled_if, in_repo, true, true, false));
            return false;
        }
    }
    assert(true == spec_enabled(check@.enabled_if, in_repo, true, true, true));
    true
}

/// Reads a time budget such as `30s`, `5m` or `1h`, of eleven digits at most.
pub fn parse_duration(text: &str) -> (parsed: Option<Duration>)
    requires
        readable(text@),
    ensures
        parsed == Duration::spec_parse(text@),
{
    Duration::parse(text)
}

/// How many checks of a stage may run at once: as many as there are
/// processors, and four where that is not known.
pub fn concurrency_limit(available: Option<usize>) -> (limit: usize)
    ensures
        limit == match available {
            Some(n) => if n > 0 {
                n
            } else {
                4
            },
            None => 4,
        },
        limit > 0,
{
    match available {
        Some(n) => if n > 0 {
            n
        } else {
            4
        },
        None => 4,
    }
}

/// The view of a list of named checks.
pub open spec fn checks_view(checks: Seq<(String, CheckConfig)>) -> Seq<
    (Seq<char>, CheckConfigView),
> {
    Seq::new(checks.len(), |i: int| (checks[i].0@, checks[i].1@))
}

/// What a name resolves to: its definition where `table` has one, and
/// otherwise the name itself as a bare command.
pub open spec fn resolve_one(name: Seq<char>, table: Seq<(Seq<char>, CheckConfigView)>) -> (
    Seq<char>,
    CheckConfigView,
) {
    (
        name,
        if has_name(table, name) {
            pairs_to_map(table)[name]
        } else {
            CheckConfigView::from_command(name)
        },
    )
}

/// What a list of names resolves to, name by name.
pub open spec fn spec_resolve(
    names: Seq<Seq<char>>,
    table: Seq<(Seq<char>, CheckConfigView)>,
) -> Seq<(Seq<char>, CheckConfigView)> {
    Seq::new(names.len(), |i: int| resolve_one(names[i], table))
}

/// The names of the checks that a mode runs.
pub open spec fn checks_for_mode(
    config: crate::config::ConfigView,
    mode: Mode,
) -> Seq<Seq<char>> {
    match mode {
        Mode::Human => config.human.checks,
        Mode::Agent | Mode::Ci => config.agent.checks,
    }
}

/// The time budget that a mode gives each check, as configured.
pub open spec fn timeout_text(config: crate::config::ConfigView, mode: Mode) -> Seq<char> {
    match mode {
        Mode::Human => config.human.timeout,
        Mode::Agent | Mode::Ci => config.agent.timeout,
    }
}

/// The time budget that a reading of the configured text stands for: the
/// span that was read, and five minutes where the text is no span.
pub open spec fn spec_timeout(read: Option<Duration>) -> Duration {
    match read {
        Some(span) => span,
        None => Duration { secs: DEFAULT_TIMEOUT_SECS, nanos: 0 },
    }
}

/// How the command of a check is run: in the repository root where there is a
/// repository, within the time budget, with the environment of the check set
/// in its order, and with output captured.
pub open spec fn spec_options(
    check: CheckConfigView,
    timeout: Duration,
    root: Option<Seq<char>>,
) -> ExecuteOptionsView {
    ExecuteOptionsView {
        cwd: root,
        timeout: Some(timeout),
        env: check.env,
        capture_output: true,
        shell: None,
    }
}

/// What is to be done about one check.
#[derive(Debug)]
pub enum CheckPlan {
    /// Nothing is run; this is the result.
    Skip(CheckResult),
    /// The command is run under the options. The flag says that the configured
    /// time budget could not be read and five minutes are used in its place,
    /// which the caller should warn of.
    Execute { command: String, options: ExecuteOptions, timeout_defaulted: bool },
}

/// The reason given for a check whose condition does not hold.
pub open spec fn condition_not_met() -> Seq<char> {
    "Condition not met"@
}

/// Whether `plan` is what is to be done about the check `name`, defined as
/// `check`, given whether its condition holds and what the configured time
/// budget was read as: a check whose condition does not hold is skipped, and
/// any other is run as [`spec_options`] says, within the span that was read,
/// or within five minutes, with the flag set, where the text is no span.
pub open spec fn plans(
    plan: CheckPlan,
    name: Seq<char>,
    check: CheckConfigView,
    root: Option<Seq<char>>,
    enabled: bool,
    read: Option<Duration>,
) -> bool {
    match plan {
        CheckPlan::Skip(result) => !enabled && result@ == CheckResultView::skipped(
            name,
            condition_not_met(),
        ),
        CheckPlan::Execute { command, options, timeout_defaulted } => enabled && command@
            == check.run && options@ == spec_options(check, spec_timeout(read), root)
            && timeout_defaulted == (read is None),
    }
}

/// The time budget that `mode` gives each check, as configured.
pub fn timeout_setting(config: &Config, mode: Mode) -> (text: &str)
    ensures
        text@ == timeout_text(config@, mode),
{
    match mode {
        Mode::Human => config.human.timeout.as_str(),
        Mode::Agent | Mode::Ci => config.agent.timeout.as_str(),
    }
}

/// What is to be done about one check, given whether its condition holds and
/// what the configured time budget was read as, `None` standing for a text
/// that is no span.
pub fn plan_with_timeout(
    name: &str,
    check: &CheckConfig,
    repo: Option<&GitRepo>,
    enabled: bool,
    read: Option<Duration>,
) -> (plan: CheckPlan)
    ensures
        plans(
            plan,
            name@,
            check@,
            match repo {
                Some(r) => Some(r.spec_root()),
                None => None,
            },
            enabled,
            read,
        ),
{
    if !enabled {
        return CheckPlan::Skip(
            CheckResult::skipped(name.to_string(), "Condition not met".to_string()),
        );
    }
    let timeout_defaulted = read.is_none();
    let timeout = match read {
        Some(span) => span,
        None => Duration::from_secs(DEFAULT_TIMEOUT_SECS),
    };
    let mut options = ExecuteOptions::default().timeout(timeout);
    if let Some(repo) = repo {
        options = options.cwd(repo.root());
    }
    let count = check.env.len();
    let mut i: usize = 0;
    let ghost base = options@;
    assert(check.env.pairs().take(0) =~= Seq::<(Seq<char>, Seq<char>)>::empty());
    while i < count
        invariant
            i <= count,
            count == check.env.pairs().len(),
            options@ == (ExecuteOptionsView { env: check.env.pairs().take(i as int), ..base }),
        decreases count - i,
    {
        options = options.env(check.env.name_at(i), check.env.value_at(i).as_str());
        assert(check.env.pairs().take(i as int).push(check.env.pairs()[i as int])
            =~= check.env.pairs().take(i + 1));
        i = i + 1;
    }
    assert(check.env.pairs().take(i as int) =~= check.env.pairs());
    CheckPlan::Execute { command: check.run.clone(), options, timeout_defaulted }
}

/// What is to be done about one check in `mode`, given whether its condition
/// holds: the time budget is that of the mode, read from its configured text
/// as `humantime` reads it. The text may hold eleven digits at most; a caller
/// that has a longer one reads it by its own means and plans with
/// [`plan_with_timeout`].
pub fn plan_check(
    name: &str,
    check: &CheckConfig,
    mode: Mode,
    config: &Config,
    repo: Option<&GitRepo>,
    enabled: bool,
) -> (plan: CheckPlan)
    requires
        readable(timeout_text(config@, mode)),
    ensures
        plans(
            plan,
            name@,
            check@,
            match repo {
                Some(r) => Some(r.spec_root()),
                None => None,
            },
            enabled,
            Duration::spec_parse(timeout_text(config@, mode)),
        ),
{
    let read = parse_duration(timeout_setting(config, mode));
    plan_with_timeout(name, check, repo, enabled, read)
}

/// Runs the checks of a configuration: it picks the checks of a mode, resolves
/// them, and says what is to be done about each.
#[derive(Debug)]
pub struct Runner {
    config: Config,
    repo: Option<GitRepo>,
}

impl Runner {
    /// The configuration of the runner.
    pub closed spec fn spec_config(&self) -> crate::config::ConfigView {
        self.config@
    }

    /// The root of the repository of the runner, where it has one.
    pub closed spec fn spec_root(&self) -> Option<Seq<char>> {
        match self.repo {
            Some(repo) => Some(repo.spec_root()),
            None => None,
        }
    }

    /// The `.git` directory of the repository of the runner, where it has
    /// one.
    pub closed spec fn spec_git_dir(&self) -> Option<Seq<char>> {
        match self.repo {
            Some(repo) => Some(repo.spec_git_dir()),
            None => None,
        }
    }

    /// A runner that works outside any repository.
    pub fn new(config: Config) -> (runner: Self)
        ensures
            runner.spec_config() == config@,
            runner.spec_root() is None,
            runner.spec_git_dir() is None,
    {
        Runner { config, repo: None }
    }

    /// A runner that works in `repo`.
    pub fn with_repo(config: Config, repo: GitRepo) -> (runner: Self)
        ensures
            runner.spec_config() == config@,
            runner.spec_root() == Some(repo.spec_root()),
            runner.spec_git_dir() == Some(repo.spec_git_dir()),
    {
        Runner { config, repo: Some(repo) }
    }

    /// The configuration of the runner.
    pub fn config(&self) -> (config: &Config)
        ensures
            config@ == self.spec_config(),
    {
        &self.config
    }

    /// The repository of the runner, where it has one.
    pub fn repo(&self) -> (repo: Option<&GitRepo>)
        ensures
            match repo {
                Some(r) => self.spec_root() == Some(r.spec_root()) && self.spec_git_dir() == Some(
                    r.spec_git_dir(),
                ),
                None => self.spec_root() is None && self.spec_git_dir() is None,
            },
    {
        self.repo.as_ref()
    }

    /// The names of the checks that `mode` runs, in their order.
    pub fn get_checks_for_mode(&self, mode: Mode) -> (names: Vec<String>)
        ensures
            names.deep_view() == checks_for_mode(self.spec_config(), mode),
    {
        let source = match mode {
            Mode::Human => &self.config.human.checks,
            Mode::Agent | Mode::Ci => &self.config.agent.checks,
        };
        let mut names: Vec<String> = Vec::new();
        let mut i: usize = 0;
        while i < source.len()
            invariant
                i <= source.len(),
                names.len() == i,
                forall|j: int| 0 <= j < i ==> (#[trigger] names@[j])@ == source@[j]@,
            decreases source.len() - i,
        {
            names.push(source[i].clone());
            i = i + 1;
        }
        assert(names.deep_view() =~= source.deep_view());
        names
    }

    /// The definition of each name, in the order of the names: the configured
    /// one where there is one, and otherwise the name itself as a bare
    /// command. Every name resolves, so this never fails.
    pub fn resolve_checks(&self, names: &Vec<String>) -> (resolved: Result<
        Vec<(String, CheckConfig)>,
        Error,
    >)
        ensures
            resolved matches Ok(checks) && checks@.len() == names@.len() && checks_view(checks@)
                == spec_resolve(names.deep_view(), self.spec_config().checks),
    {
        let mut checks: Vec<(String, CheckConfig)> = Vec::new();
        let mut i: usize = 0;
        while i < names.len()
            invariant
                i <= names.len(),
                checks.len() == i,
                forall|j: int|
                    0 <= j < i ==> ((#[trigger] checks@[j]).0@, checks@[j].1@) == resolve_one(
                        names@[j]@,
                        self.config.checks.pairs(),
                    ),
            decreases names.len() - i,
        {
            let name = names[i].clone();
            let check = match self.config.checks.get(name.as_str()) {
                Some(check) => check.clone(),
                None => CheckConfig::from_command(name.clone()),
            };
            checks.push((name, check));
            i = i + 1;
        }
        assert(checks_view(checks@) =~= spec_resolve(
            names.deep_view(),
            self.spec_config().checks,
        ));
        Ok(checks)
    }

    /// The definition of the check called `name`, for running that check
    /// alone; the error `CheckNotFound` where nothing defines it.
    pub fn find_check(&self, name: &str) -> (found: Result<CheckConfig, Error>)
        ensures
            match found {
                Ok(check) => has_name(self.spec_config().checks, name@) && check@ == pairs_to_map(
                    self.spec_config().checks,
                )[name@],
                Err(error) => !has_name(self.spec_config().checks, name@) && (
                error matches Error::CheckNotFound { name: n } && n@ == name@),
            },
    {
        match self.config.checks.get(name) {
            Some(check) => Ok(check.clone()),
            None => Err(Error::CheckNotFound { name: name.to_string() }),
        }
    }

    /// What is to be done about one check: whether its condition holds is
    /// looked up now, and the plan follows from that as [`plans`] says, with
    /// the time budget of the mode as `humantime` reads it. That text may hold
    /// eleven digits at most.
    pub fn plan(&self, name: &str, check: &CheckConfig, mode: Mode) -> (plan: CheckPlan)
        requires
            readable(timeout_text(self.spec_config(), mode)),
        ensures
            exists|enabled: bool| #[trigger]
                plans(
                    plan,
                    name@,
                    check@,
                    self.spec_root(),
                    enabled,
                    Duration::spec_parse(timeout_text(self.spec_config(), mode)),
                ),
            check@.enabled_if is None ==> plan is Execute,
    {
        let enabled = check_enabled(check, self.repo.as_ref());
        let plan = plan_check(name, check, mode, &self.config, self.repo.as_ref(), enabled);
        assert(plans(
            plan,
            name@,
            check@,
            self.spec_root(),
            enabled,
            Duration::spec_parse(timeout_text(self.spec_config(), mode)),
        ));
        plan
    }
}

/// The views of a list of results.
pub open spec fn results_view(results: Seq<CheckResult>) -> Seq<CheckResultView> {
    Seq::new(results.len(), |i: int| results[i]@)
}

/// The views of the stages of a run.
pub open spec fn stages_view(stages: Seq<Vec<(String, CheckConfig)>>) -> Seq<
    Seq<(Seq<char>, CheckConfigView)>,
> {
    Seq::new(stages.len(), |i: int| checks_view(stages[i]@))
}

/// Whether some result failed.
pub open spec fn any_failed(results: Seq<CheckResultView>) -> bool {
    exists|i: int| 0 <= i < results.len() && !(#[trigger] results[i]).passed
}

/// Whether `results` are results for the checks of `stage`, one for each, in
/// the order of the stage.
pub open spec fn results_match(
    stage: Seq<(Seq<char>, CheckConfigView)>,
    results: Seq<CheckResultView>,
) -> bool {
    results.len() == stage.len() && forall|i: int|
        0 <= i < stage.len() ==> (#[trigger] results[i]).name == stage[i].0
}

/// Whether the results of the first `upto` stages, stage after stage, make up
/// `results`.
pub open spec fn results_cover(
    stages: Seq<Seq<(Seq<char>, CheckConfigView)>>,
    upto: int,
    results: Seq<CheckResultView>,
) -> bool
    decreases upto,
{
    if upto <= 0 {
        results.len() == 0
    } else {
        let stage = stages[upto - 1];
        results.len() >= stage.len() && results_match(
            stage,
            results.subrange(results.len() - stage.len(), results.len() as int),
        ) && results_cover(stages, upto - 1, results.subrange(0, results.len() - stage.len()))
    }
}

/// The message for results that do not belong to the stage that is due.
pub open spec fn stage_mismatch() -> Seq<char> {
    "Results do not match the stage that is due"@
}

/// The stages of a run and how far it has come.
///
/// The stages run one after another. The checks of a stage may run side by
/// side; their results are handed in together, and only then is the next stage
/// handed out. With fail-fast, no stage is handed out once any result so far
/// has failed.
#[derive(Debug)]
pub struct Schedule {
    stages: Vec<Vec<(String, CheckConfig)>>,
    fail_fast: bool,
    position: usize,
    results: Vec<CheckResult>,
    failed_seen: bool,
}

impl Schedule {
    /// The stages, each a list of named checks.
    pub closed spec fn stages(&self) -> Seq<Seq<(Seq<char>, CheckConfigView)>> {
        stages_view(self.stages@)
    }

    /// Whether a failure keeps later stages from running.
    pub closed spec fn fail_fast(&self) -> bool {
        self.fail_fast
    }

    /// How many stages have handed in their results.
    pub closed spec fn position(&self) -> nat {
        self.position as nat
    }

    /// The results handed in so far.
    pub closed spec fn results(&self) -> Seq<CheckResultView> {
        results_view(self.results@)
    }

    /// The stage that is due, if the run goes on: the first that has not
    /// handed in its results, unless there is none left or fail-fast has ended
    /// the run.
    pub open spec fn due(&self) -> Option<nat> {
        if self.position() < self.stages().len() && !(self.fail_fast() && any_failed(
            self.results(),
        )) {
            Some(self.position())
        } else {
            None
        }
    }

    #[verifier::type_invariant]
    spec fn consistent(&self) -> bool {
        &&& self.position <= self.stages@.len()
        &&& self.failed_seen == any_failed(results_view(self.results@))
        &&& results_cover(
            stages_view(self.stages@),
            self.position as int,
            results_view(self.results@),
        )
    }

    /// A run of `stages` that has not begun.
    pub fn new(stages: Vec<Vec<(String, CheckConfig)>>, fail_fast: bool) -> (schedule: Self)
        ensures
            schedule.stages() == stages_view(stages@),
            schedule.fail_fast() == fail_fast,
            schedule.position() == 0,
            schedule.results() == Seq::<CheckResultView>::empty(),
    {
        let results: Vec<CheckResult> = Vec::new();
        assert(results_view(results@) =~= Seq::<CheckResultView>::empty());
        Schedule { stages, fail_fast, position: 0, results, failed_seen: false }
    }

    /// The number of the stage that is due, if the run goes on. The results of
    /// all stages before it have been handed in.
    pub fn next_stage(&self) -> (next: Option<usize>)
        ensures
            match next {
                Some(p) => self.due() == Some(p as nat),
                None => self.due() is None,
            },
            results_cover(self.stages(), self.position() as int, self.results()),
    {
        proof {
            use_type_invariant(self);
        }
        if self.position < self.stages.len() && !(self.fail_fast && self.failed_seen) {
            Some(self.position)
        } else {
            None
        }
    }

    /// The checks of stage `number`.
    pub fn stage(&self, number: usize) -> (stage: &Vec<(String, CheckConfig)>)
        requires
            number < self.stages().len(),
        ensures
            checks_view(stage@) == self.stages()[number as int],
    {
        &self.stages[number]
    }

    /// How many stages there are.
    pub fn stage_count(&self) -> (count: usize)
        ensures
            count == self.stages().len(),
    {
        self.stages.len()
    }

    /// Hands in the results of the stage that is due: one result for each of
    /// its checks, in their order. They are added to the report and the next
    /// stage becomes due. Results that do not belong to the stage that is due,
    /// or that come when no stage is due, are refused with an internal error.
    pub fn record_stage(self, results: Vec<CheckResult>) -> (outcome: Result<Schedule, Error>)
        ensures
            match outcome {
                Ok(next) => self.due() is Some && results_match(
                    self.stages()[self.position() as int],
                    results_view(results@),
                ) && next.stages() == self.stages() && next.fail_fast() == self.fail_fast()
                    && next.position() == self.position() + 1 && next.results() == self.results()
                    + results_view(results@),
                Err(error) => !(self.due() is Some && results_match(
                    self.stages()[self.position() as int],
                    results_view(results@),
                )) && (error matches Error::Internal { message } && message@ == stage_mismatch()),
            },
    {
        proof {
            use_type_invariant(&self);
        }
        let due = self.position < self.stages.len() && !(self.fail_fast && self.failed_seen);
        if !due || !Self::belongs(&self.stages[self.position], &results) {
            return Err(
                Error::Internal {
                    message: "Results do not match the stage that is due".to_string(),
                },
            );
        }
        let ghost before = results_view(self.results@);
        let ghost added = results_view(results@);
        let ghost stage = stages_view(self.stages@)[self.position as int];
        let mut failed_now = false;
        let mut incoming = results;
        let mut i: usize = 0;
        while i < incoming.len()
            invariant
                i <= incoming.len(),
                results_view(incoming@) == added,
                failed_now == (exists|j: int| 0 <= j < i && !(#[trigger] added[j]).passed),
            decreases incoming.len() - i,
        {
            if !incoming[i].passed {
                assert(!added[i as int].passed);
                failed_now = true;
            }
            i = i + 1;
        }
        let mut kept = self.results;
        kept.append(&mut incoming);
        let ghost after = results_view(kept@);
        proof {
            assert(after =~= before + added);
            assert(after.subrange(after.len() - stage.len(), after.len() as int) =~= added);
            assert(after.subrange(0, after.len() - stage.len()) =~= before);
            if any_failed(after) {
                let k = choose|k: int| 0 <= k < after.len() && !(#[trigger] after[k]).passed;
                if k < before.len() {
                    assert(!before[k].passed);
                } else {
                    assert(!added[k - before.len()].passed);
                }
            }
            if any_failed(before) {
                let k = choose|k: int| 0 <= k < before.len() && !(#[trigger] before[k]).passed;
                assert(!after[k].passed);
            }
            if failed_now {
                let k = choose|k: int| 0 <= k < added.len() && !(#[trigger] added[k]).passed;
                assert(!after[before.len() + k].passed);
            }
        }
        Ok(
            Schedule {
                stages: self.stages,
                fail_fast: self.fail_fast,
                position: self.position + 1,
                results: kept,
                failed_seen: self.failed_seen || failed_now,
            },
        )
    }

    /// Whether `results` are results for the checks of `stage`, one for each,
    /// in the order of the stage.
    fn belongs(stage: &Vec<(String, CheckConfig)>, results: &Vec<CheckResult>) -> (fits: bool)
        ensures
            fits == results_match(checks_view(stage@), results_view(results@)),
    {
        if stage.len() != results.len() {
            return false;
        }
        let mut i: usize = 0;
        while i < stage.len()
            invariant
                i <= stage.len(),
                stage.len() == results.len(),
                forall|j: int|
                    0 <= j < i ==> (#[trigger] results_view(results@)[j]).name == checks_view(
                        stage@,
                    )[j].0,
            decreases stage.len() - i,
        {
            if !str_eq(results[i].name.as_str(), stage[i].0.as_str()) {
                assert(results_view(results@)[i as int].name != checks_view(stage@)[i as int].0);
                return false;
            }
            i = i + 1;
        }
        true
    }

    /// The report of the run as far as it has come.
    pub fn finish(self, mode: Mode, duration: Duration) -> (report: RunResult)
        ensures
            report.mode == mode,
            report.duration == duration,
            results_view(report.checks@) == self.results(),
            results_cover(self.stages(), self.position() as int, self.results()),
    {
        proof {
            use_type_invariant(&self);
        }
        RunResult { mode, checks: self.results, duration }
    }
}

/// The position of the last of `checks` that is called `name`; -1 where
/// there is none.
pub open spec fn last_named(checks: Seq<(Seq<char>, CheckConfigView)>, name: Seq<char>) -> int
    decreases checks.len(),
{
    if checks.len() == 0 {
        -1
    } else if checks.last().0 == name {
        checks.len() - 1
    } else {
        last_named(checks.drop_last(), name)
    }
}

/// The stage that a group of names stands for: those of its names that are
/// among `checks`, in the order of the group, each with its definition.
pub open spec fn stage_of(group: Seq<Seq<char>>, checks: Seq<(Seq<char>, CheckConfigView)>) -> Seq<
    (Seq<char>, CheckConfigView),
>
    decreases group.len(),
{
    if group.len() == 0 {
        Seq::empty()
    } else {
        let rest = stage_of(group.drop_last(), checks);
        let at = last_named(checks, group.last());
        if at >= 0 {
            rest.push((group.last(), checks[at].1))
        } else {
            rest
        }
    }
}

/// The stages that groups of names stand for, in the order of the groups; a
/// group that names none of `checks` makes no stage.
pub open spec fn stages_of(
    groups: Seq<Seq<Seq<char>>>,
    checks: Seq<(Seq<char>, CheckConfigView)>,
) -> Seq<Seq<(Seq<char>, CheckConfigView)>>
    decreases groups.len(),
{
    if groups.len() == 0 {
        Seq::empty()
    } else {
        let rest = stages_of(groups.drop_last(), checks);
        let stage = stage_of(groups.last(), checks);
        if stage.len() > 0 {
            rest.push(stage)
        } else {
            rest
        }
    }
}

/// The stages in which checks run one by one: a stage for each check, in the
/// order of the checks.
pub open spec fn singletons(checks: Seq<(Seq<char>, CheckConfigView)>) -> Seq<
    Seq<(Seq<char>, CheckConfigView)>,
> {
    Seq::new(checks.len(), |i: int| seq![checks[i]])
}

/// The stages in which a mode runs its checks. A thorough mode runs the
/// configured groups, or all its checks as one group where none is
/// configured; the others run their checks one by one.
pub open spec fn spec_stages(config: crate::config::ConfigView, mode: Mode) -> Seq<
    Seq<(Seq<char>, CheckConfigView)>,
> {
    let names = checks_for_mode(config, mode);
    let checks = spec_resolve(names, config.checks);
    if mode.spec_is_thorough() {
        if config.agent.parallel_groups.len() == 0 {
            stages_of(seq![names], checks)
        } else {
            stages_of(config.agent.parallel_groups, checks)
        }
    } else {
        singletons(checks)
    }
}

/// Whether a failure ends the run of a mode: as configured for the agent where
/// the mode is thorough, and as configured for the human where it is not.
pub open spec fn spec_fail_fast(config: crate::config::ConfigView, mode: Mode) -> bool {
    if mode.spec_is_thorough() {
        config.agent.fail_fast
    } else {
        config.human.fail_fast
    }
}

/// The position of the last of `checks` that is called `name`.
fn find_last(checks: &Vec<(String, CheckConfig)>, name: &str) -> (found: Option<usize>)
    ensures
        match found {
            Some(at) => at < checks.len() && at == last_named(checks_view(checks@), name@),
            None => last_named(checks_view(checks@), name@) == -1,
        },
{
    let ghost all = checks_view(checks@);
    let mut i: usize = checks.len();
    assert(all.take(i as int) =~= all);
    while i > 0
        invariant
            i <= checks.len(),
            all == checks_view(checks@),
            last_named(all, name@) == last_named(all.take(i as int), name@),
        decreases i,
    {
        assert(all.take(i as int).drop_last() =~= all.take(i - 1));
        assert(all.take(i as int).last() == all[i - 1]);
        if str_eq(checks[i - 1].0.as_str(), name) {
            return Some(i - 1);
        }
        i = i - 1;
    }
    None
}

/// The stage that a group of names stands for.
fn stage_for(group: &Vec<String>, checks: &Vec<(String, CheckConfig)>) -> (stage: Vec<
    (String, CheckConfig),
>)
    ensures
        checks_view(stage@) == stage_of(group.deep_view(), checks_view(checks@)),
{
    let ghost names = group.deep_view();
    let ghost all = checks_view(checks@);
    let mut stage: Vec<(String, CheckConfig)> = Vec::new();
    let mut i: usize = 0;
    assert(names.take(0) =~= Seq::<Seq<char>>::empty());
    assert(checks_view(stage@) =~= Seq::empty());
    while i < group.len()
        invariant
            i <= group.len(),
            names == group.deep_view(),
            all == checks_view(checks@),
            checks_view(stage@) == stage_of(names.take(i as int), all),
        decreases group.len() - i,
    {
        assert(names.take(i + 1).drop_last() =~= names.take(i as int));
        assert(names.take(i + 1).last() == group@[i as int]@);
        let ghost before = checks_view(stage@);
        match find_last(checks, group[i].as_str()) {
            Some(at) => {
                stage.push((group[i].clone(), checks[at].1.clone()));
                assert(checks_view(stage@) =~= before.push((group@[i as int]@, all[at as int].1)));
            },
            None => {},
        }
        i = i + 1;
    }
    assert(names.take(i as int) =~= names);
    stage
}

/// The stages that groups of names stand for.
fn stages_for(groups: &Vec<Vec<String>>, checks: &Vec<(String, CheckConfig)>) -> (stages: Vec<
    Vec<(String, CheckConfig)>,
>)
    ensures
        stages_view(stages@) == stages_of(groups.deep_view(), checks_view(checks@)),
{
    let ghost all_groups = groups.deep_view();
    let ghost all = checks_view(checks@);
    let mut stages: Vec<Vec<(String, CheckConfig)>> = Vec::new();
    let mut g: usize = 0;
    assert(all_groups.take(0) =~= Seq::<Seq<Seq<char>>>::empty());
    assert(stages_view(stages@) =~= Seq::empty());
    while g < groups.len()
        invariant
            g <= groups.len(),
            all_groups == groups.deep_view(),
            all == checks_view(checks@),
            stages_view(stages@) == stages_of(all_groups.take(g as int), all),
        decreases groups.len() - g,
    {
        assert(all_groups.take(g + 1).drop_last() =~= all_groups.take(g as int));
        assert(all_groups.take(g + 1).last() == groups@[g as int].deep_view());
        let ghost before = stages_view(stages@);
        let stage = stage_for(&groups[g], checks);
        if stage.len() > 0 {
            let ghost stage_view = checks_view(stage@);
            stages.push(stage);
            assert(stages_view(stages@) =~= before.push(stage_view));
        }
        g = g + 1;
    }
    assert(all_groups.take(g as int) =~= all_groups);
    stages
}

/// The stages in which `checks` run one by one.
fn singleton_stages(checks: Vec<(String, CheckConfig)>) -> (stages: Vec<Vec<(String, CheckConfig)>>)
    ensures
        stages_view(stages@) == singletons(checks_view(checks@)),
{
    let ghost all = checks_view(checks@);
    let mut stages: Vec<Vec<(String, CheckConfig)>> = Vec::new();
    for check in it: checks.into_iter()
        invariant
            it.seq() == checks@,
            all == checks_view(checks@),
            stages.len() == it.index(),
            forall|j: int|
                0 <= j < it.index() ==> checks_view((#[trigger] stages@[j])@) == seq![all[j]],
    {
        let ghost one = (check.0@, check.1@);
        let mut stage: Vec<(String, CheckConfig)> = Vec::new();
        stage.push(check);
        assert(checks_view(stage@) =~= seq![one]);
        stages.push(stage);
    }
    assert(stages_view(stages@) =~= singletons(all));
    stages
}

impl Runner {
    /// The run of `mode`, not yet begun: its stages as [`spec_stages`] says,
    /// and its fail-fast policy as [`spec_fail_fast`] says.
    pub fn schedule(&self, mode: Mode) -> (schedule: Schedule)
        ensures
            schedule.stages() == spec_stages(self.spec_config(), mode),
            schedule.fail_fast() == spec_fail_fast(self.spec_config(), mode),
            schedule.position() == 0,
            schedule.results() == Seq::<CheckResultView>::empty(),
    {
        let names = self.get_checks_for_mode(mode);
        let checks = match self.resolve_checks(&names) {
            Ok(checks) => checks,
            Err(_) => Vec::new(),
        };
        if mode.is_thorough() {
            let stages = if self.config.agent.parallel_groups.len() == 0 {
                let mut groups: Vec<Vec<String>> = Vec::new();
                groups.push(names);
                assert(groups.deep_view() =~= seq![names.deep_view()]);
                stages_for(&groups, &checks)
            } else {
                stages_for(&self.config.agent.parallel_groups, &checks)
            };
            Schedule::new(stages, self.config.agent.fail_fast)
        } else {
            Schedule::new(singleton_stages(checks), self.config.human.fail_fast)
        }
    }
}

} // verus!
