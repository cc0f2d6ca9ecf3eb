//! Telling a human at a terminal from a coding agent or a CI job, from a
//! snapshot of the environment.

use vstd::prelude::*;
use crate::config::Config;
use crate::namemap::NameMap;
use crate::search::first_where;
use crate::text::{concat, lowercase, str_eq, to_lowercase};

verus! {

/// Who commits, and so how thorough the checks are.
#[derive(Debug, Clone, Copy, PartialEq, Eq, Hash, Structural)]
pub enum Mode {
    /// A person at a terminal: quick checks, one after the other.
    Human,
    /// A coding agent: thorough checks, side by side.
    Agent,
    /// A CI job: as for an agent.
    Ci,
}

impl Default for Mode {
    fn default() -> (mode: Self)
        ensures
            mode == Mode::Human,
    {
        Mode::Human
    }
}

impl Mode {
    /// The name of the mode.
    pub open spec fn spec_name(self) -> Seq<char> {
        match self {
            Mode::Human => "human"@,
            Mode::Agent => "agent"@,
            Mode::Ci => "ci"@,
        }
    }

    /// Whether the mode asks for thorough checks.
    pub open spec fn spec_is_thorough(self) -> bool {
        self == Mode::Agent || self == Mode::Ci
    }

    /// The mode that a text names, whatever its case.
    pub open spec fn spec_parse(text: Seq<char>) -> Option<Mode> {
        Self::spec_from_lowercase(lowercase(text))
    }

    /// The mode that a text in lower case names.
    pub open spec fn spec_from_lowercase(lower: Seq<char>) -> Option<Mode> {
        if lower == "human"@ {
            Some(Mode::Human)
        } else if lower == "agent"@ {
            Some(Mode::Agent)
        } else if lower == "ci"@ {
            Some(Mode::Ci)
        } else {
            None
        }
    }

    /// What is said of a text that names no mode.
    pub open spec fn parse_error(text: Seq<char>) -> Seq<char> {
        "Invalid mode: "@ + text + ". Expected: human, agent, or ci"@
    }

    /// The name of the mode.
    pub fn name(&self) -> (name: &'static str)
        ensures
            name@ == self.spec_name(),
    {
        match self {
            Mode::Human => "human",
            Mode::Agent => "agent",
            Mode::Ci => "ci",
        }
    }

    /// Whether the mode asks for thorough checks.
    pub fn is_thorough(&self) -> (thorough: bool)
        ensures
            thorough == self.spec_is_thorough(),
    {
        match self {
            Mode::Human => false,
            Mode::Agent | Mode::Ci => true,
        }
    }

    /// The name of the mode, as an owned text.
    pub fn to_string(&self) -> (text: String)
        ensures
            text@ == self.spec_name(),
    {
        self.name().to_string()
    }

    /// The mode that `lower`, a text in lower case, names: `human`, `agent`
    /// or `ci`.
    pub fn from_lowercase(lower: &str) -> (mode: Option<Mode>)
        ensures
            mode == Mode::spec_from_lowercase(lower@),
    {
        if str_eq(lower, "human") {
            Some(Mode::Human)
        } else if str_eq(lower, "agent") {
            Some(Mode::Agent)
        } else if str_eq(lower, "ci") {
            Some(Mode::Ci)
        } else {
            None
        }
    }

    /// The mode that `text` names, whatever its case; an explanation where it
    /// names none.
    pub fn parse(text: &str) -> (parsed: Result<Mode, String>)
        ensures
            match parsed {
                Ok(mode) => Mode::spec_parse(text@) == Some(mode),
                Err(why) => Mode::spec_parse(text@) is None && why@ == Mode::parse_error(text@),
            },
    {
        let lower = to_lowercase(text);
        match Mode::from_lowercase(lower.as_str()) {
            Some(mode) => Ok(mode),
            None => {
                let head = concat("Invalid mode: ", text);
                Err(concat(head.as_str(), ". Expected: human, agent, or ci"))
            },
        }
    }
}

impl std::str::FromStr for Mode {
    type Err = String;

    fn from_str(s: &str) -> (parsed: Result<Self, String>)
        ensures
            match parsed {
                Ok(mode) => Mode::spec_parse(s@) == Some(mode),
                Err(why) => Mode::spec_parse(s@) is None && why@ == Mode::parse_error(s@),
            },
    {
        Mode::parse(s)
    }
}

/// Why a mode was detected.
#[derive(Debug, Clone, PartialEq, Eq)]
pub enum DetectionReason {
    /// `APC_MODE` is set; its value is kept.
    ExplicitApcMode(String),
    /// `AGENT_MODE` is switched on.
    ExplicitAgentMode,
    /// A variable that a known agent sets is present.
    KnownAgentEnvVar(String),
    /// A variable that the configuration names is present.
    CustomAgentEnvVar(String),
    /// A variable that a CI system sets is present.
    CiEnvironment(String),
    /// Neither standard input nor standard output is a terminal.
    NoTty,
    /// Nothing points to an agent.
    Default,
}

/// The view of a [`DetectionReason`].
pub enum DetectionReasonView {
    ExplicitApcMode(Seq<char>),
    ExplicitAgentMode,
    KnownAgentEnvVar(Seq<char>),
    CustomAgentEnvVar(Seq<char>),
    CiEnvironment(Seq<char>),
    NoTty,
    Default,
}

impl View for DetectionReason {
    type V = DetectionReasonView;

    open spec fn view(&self) -> DetectionReasonView {
        match self {
            DetectionReason::ExplicitApcMode(value) => DetectionReasonView::ExplicitApcMode(value@),
            DetectionReason::ExplicitAgentMode => DetectionReasonView::ExplicitAgentMode,
            DetectionReason::KnownAgentEnvVar(var) => DetectionReasonView::KnownAgentEnvVar(var@),
            DetectionReason::CustomAgentEnvVar(var) => DetectionReasonView::CustomAgentEnvVar(
                var@,
            ),
            DetectionReason::CiEnvironment(var) => DetectionReasonView::CiEnvironment(var@),
            DetectionReason::NoTty => DetectionReasonView::NoTty,
            DetectionReason::Default => DetectionReasonView::Default,
        }
    }
}

impl DetectionReasonView {
    /// The reason in words.
    pub open spec fn message(self) -> Seq<char> {
        match self {
            DetectionReasonView::ExplicitApcMode(value) => "APC_MODE="@ + value,
            DetectionReasonView::ExplicitAgentMode => "AGENT_MODE=1"@,
            DetectionReasonView::KnownAgentEnvVar(var) => "Known agent env var: "@ + var,
            DetectionReasonView::CustomAgentEnvVar(var) => "Custom agent env var: "@ + var,
            DetectionReasonView::CiEnvironment(var) => "CI environment: "@ + var,
            DetectionReasonView::NoTty => "No TTY detected (non-interactive)"@,
            DetectionReasonView::Default => "Default (no agent indicators)"@,
        }
    }
}

impl DetectionReason {
    /// The reason in words.
    pub fn to_string(&self) -> (text: String)
        ensures
            text@ == self@.message(),
    {
        match self {
            DetectionReason::ExplicitApcMode(value) => concat("APC_MODE=", value.as_str()),
            DetectionReason::ExplicitAgentMode => "AGENT_MODE=1".to_string(),
            DetectionReason::KnownAgentEnvVar(var) => concat("Known agent env var: ", var.as_str()),
            DetectionReason::CustomAgentEnvVar(var) => concat(
                "Custom agent env var: ",
                var.as_str(),
            ),
            DetectionReason::CiEnvironment(var) => concat("CI environment: ", var.as_str()),
            DetectionReason::NoTty => "No TTY detected (non-interactive)".to_string(),
            DetectionReason::Default => "Default (no agent indicators)".to_string(),
        }
    }
}

/// A detected mode with the reason for it.
#[derive(Debug, Clone)]
pub struct Detection {
    /// The mode.
    pub mode: Mode,
    /// Why it was detected.
    pub reason: DetectionReason,
}

/// The environment variables that known coding agents set, in the order in
/// which they are looked for.
pub open spec fn spec_known_agent_env_vars() -> Seq<Seq<char>> {
    seq![
        "CLAUDE_CODE"@,
        "ANTHROPIC_PROJECT_ID"@,
        "CURSOR_SESSION"@,
        "CURSOR_TRACE_ID"@,
        "AIDER_MODEL"@,
        "AIDER_CHAT_HISTORY_FILE"@,
        "CODEX_SESSION"@,
        "OPENAI_API_KEY_FOR_AGENT"@,
        "DEVIN_SESSION"@,
        "DEVIN_API_KEY"@,
        "CLINE_SESSION"@,
        "CLINE_API_KEY"@,
        "CONTINUE_SESSION"@,
        "CONTINUE_GLOBAL_DIR"@,
        "GITHUB_COPILOT_WORKSPACE"@,
        "AWS_CODEWHISPERER_SESSION"@,
        "AMAZON_Q_SESSION"@,
        "CODY_SESSION"@,
        "SRC_ACCESS_TOKEN"@,
        "TABNINE_SESSION"@,
        "REPLIT_AGENT"@,
        "REPL_ID"@,
        "AI_AGENT"@,
        "CODING_AGENT"@,
    ]
}

/// The environment variables that known coding agents set, in the order in
/// which they are looked for.
pub fn known_agent_env_vars() -> (vars: Vec<&'static str>)
    ensures
        vars.deep_view() == spec_known_agent_env_vars(),
{
    let mut vars: Vec<&'static str> = Vec::new();
    vars.push("CLAUDE_CODE");
    vars.push("ANTHROPIC_PROJECT_ID");
    vars.push("CURSOR_SESSION");
    vars.push("CURSOR_TRACE_ID");
    vars.push("AIDER_MODEL");
    vars.push("AIDER_CHAT_HISTORY_FILE");
    vars.push("CODEX_SESSION");
    vars.push("OPENAI_API_KEY_FOR_AGENT");
    vars.push("DEVIN_SESSION");
    vars.push("DEVIN_API_KEY");
    vars.push("CLINE_SESSION");
    vars.push("CLINE_API_KEY");
    vars.push("CONTINUE_SESSION");
    vars.push("CONTINUE_GLOBAL_DIR");
    vars.push("GITHUB_COPILOT_WORKSPACE");
    vars.push("AWS_CODEWHISPERER_SESSION");
    vars.push("AMAZON_Q_SESSION");
    vars.push("CODY_SESSION");
    vars.push("SRC_ACCESS_TOKEN");
    vars.push("TABNINE_SESSION");
    vars.push("REPLIT_AGENT");
    vars.push("REPL_ID");
    vars.push("AI_AGENT");
    vars.push("CODING_AGENT");
    assert(vars.deep_view() =~= spec_known_agent_env_vars());
    vars
}

/// The environment variables that CI systems set, in the order in which they
/// are looked for.
pub open spec fn spec_known_ci_env_vars() -> Seq<Seq<char>> {
    seq![
        "CI"@,
        "GITHUB_ACTIONS"@,
        "GITLAB_CI"@,
        "CIRCLECI"@,
        "TRAVIS"@,
        "JENKINS_URL"@,
        "BUILDKITE"@,
        "BITBUCKET_PIPELINE"@,
        "AZURE_PIPELINES"@,
        "TEAMCITY_VERSION"@,
        "DRONE"@,
        "WOODPECKER"@,
        "SEMAPHORE"@,
        "APPVEYOR"@,
        "CODEBUILD_BUILD_ID"@,
        "TF_BUILD"@,
        "NETLIFY"@,
        "VERCEL"@,
        "RENDER"@,
        "RAILWAY_ENVIRONMENT"@,
        "FLY_APP_NAME"@,
    ]
}

/// The environment variables that CI systems set, in the order in which they
/// are looked for.
pub fn known_ci_env_vars() -> (vars: Vec<&'static str>)
    ensures
        vars.deep_view() == spec_known_ci_env_vars(),
{
    let mut vars: Vec<&'static str> = Vec::new();
    vars.push("CI");
    vars.push("GITHUB_ACTIONS");
    vars.push("GITLAB_CI");
    vars.push("CIRCLECI");
    vars.push("TRAVIS");
    vars.push("JENKINS_URL");
    vars.push("BUILDKITE");
    vars.push("BITBUCKET_PIPELINE");
    vars.push("AZURE_PIPELINES");
    vars.push("TEAMCITY_VERSION");
    vars.push("DRONE");
    vars.push("WOODPECKER");
    vars.push("SEMAPHORE");
    vars.push("APPVEYOR");
    vars.push("CODEBUILD_BUILD_ID");
    vars.push("TF_BUILD");
    vars.push("NETLIFY");
    vars.push("VERCEL");
    vars.push("RENDER");
    vars.push("RAILWAY_ENVIRONMENT");
    vars.push("FLY_APP_NAME");
    assert(vars.deep_view() =~= spec_known_ci_env_vars());
    vars
}

/// Whether two texts are equal once the ASCII letters of both are lower case.
pub open spec fn eq_ignoring_ascii_case(a: Seq<char>, b: Seq<char>) -> bool {
    a.len() == b.len() && forall|i: int|
        0 <= i < a.len() ==> ascii_lower(#[trigger] a[i]) == ascii_lower(b[i])
}

/// The lower-case form of an ASCII capital; any other character as it is.
pub open spec fn ascii_lower(c: char) -> char {
    if 'A' <= c <= 'Z' {
        ((c as u32) + 32) as char
    } else {
        c
    }
}

/// Whether `a` and `b` are equal once the ASCII letters of both are lower
/// case.
///
/// Trusted: calls `str::eq_ignore_ascii_case`, which std documents as comparing
/// the two after `to_ascii_lowercase`, which changes `A` to `Z` and nothing
/// else.
#[verifier::external_body]
fn eq_ignore_ascii_case(a: &str, b: &str) -> (same: bool)
    ensures
        same == eq_ignoring_ascii_case(a@, b@),
{
    a.eq_ignore_ascii_case(b)
}

/// Whether a value of `AGENT_MODE` switches the agent mode on.
pub open spec fn switched_on(value: Seq<char>) -> bool {
    value == "1"@ || eq_ignoring_ascii_case(value, "true"@)
}

/// The names that `vars` binds.
pub open spec fn present_in(vars: Map<Seq<char>, Seq<char>>) -> spec_fn(Seq<char>) -> bool {
    |name: Seq<char>| vars.contains_key(name)
}

/// What the process can see of its surroundings when the mode is detected.
#[derive(Debug, Clone)]
pub struct Environment {
    /// The environment variables whose names and values are text.
    pub vars: NameMap<String>,
    /// Whether standard input is a terminal.
    pub stdin_is_tty: bool,
    /// Whether standard output is a terminal.
    pub stdout_is_tty: bool,
}

/// What a snapshot of the surroundings makes of the mode, given the variables
/// that the configuration adds. The first of these decides: `APC_MODE` names the
/// mode (the human one where its value names none); `AGENT_MODE` is switched on;
/// a known agent variable is set; a configured variable is set; a CI variable
/// is set; no terminal is attached. Otherwise a human is at work.
pub open spec fn spec_detect(
    custom: Seq<Seq<char>>,
    vars: Map<Seq<char>, Seq<char>>,
    stdin_is_tty: bool,
    stdout_is_tty: bool,
) -> (Mode, DetectionReasonView) {
    let known_at = first_where(spec_known_agent_env_vars(), present_in(vars), 0);
    let custom_at = first_where(custom, present_in(vars), 0);
    let ci_at = first_where(spec_known_ci_env_vars(), present_in(vars), 0);
    if vars.contains_key("APC_MODE"@) {
        let value = vars["APC_MODE"@];
        (
            match Mode::spec_parse(value) {
                Some(mode) => mode,
                None => Mode::Human,
            },
            DetectionReasonView::ExplicitApcMode(value),
        )
    } else if vars.contains_key("AGENT_MODE"@) && switched_on(vars["AGENT_MODE"@]) {
        (Mode::Agent, DetectionReasonView::ExplicitAgentMode)
    } else if known_at < spec_known_agent_env_vars().len() {
        (Mode::Agent, DetectionReasonView::KnownAgentEnvVar(spec_known_agent_env_vars()[known_at]))
    } else if custom_at < custom.len() {
        (Mode::Agent, DetectionReasonView::CustomAgentEnvVar(custom[custom_at]))
    } else if ci_at < spec_known_ci_env_vars().len() {
        (Mode::Ci, DetectionReasonView::CiEnvironment(spec_known_ci_env_vars()[ci_at]))
    } else if !stdin_is_tty && !stdout_is_tty {
        (Mode::Agent, DetectionReasonView::NoTty)
    } else {
        (Mode::Human, DetectionReasonView::Default)
    }
}

/// The position of the first of `names` that `vars` binds.
fn first_known(names: &Vec<&'static str>, vars: &NameMap<String>) -> (found: Option<usize>)
    ensures
        match found {
            Some(i) => i < names.len() && i == first_where(names.deep_view(), present_in(vars@), 0),
            None => first_where(names.deep_view(), present_in(vars@), 0) == names.len(),
        },
{
    let ghost wanted = present_in(vars@);
    let ghost items = names.deep_view();
    let mut i: usize = 0;
    while i < names.len()
        invariant
            i <= names.len(),
            items == names.deep_view(),
            wanted == present_in(vars@),
            first_where(items, wanted, 0) == first_where(items, wanted, i as int),
        decreases names.len() - i,
    {
        if vars.contains_key(names[i]) {
            assert(wanted(items[i as int]));
            return Some(i);
        }
        assert(!wanted(items[i as int]));
        i = i + 1;
    }
    None
}

/// The position of the first of `names` that `vars` binds.
fn first_custom(names: &Vec<String>, vars: &NameMap<String>) -> (found: Option<usize>)
    ensures
        match found {
            Some(i) => i < names.len() && i == first_where(names.deep_view(), present_in(vars@), 0),
            None => first_where(names.deep_view(), present_in(vars@), 0) == names.len(),
        },
{
    let ghost wanted = present_in(vars@);
    let ghost items = names.deep_view();
    let mut i: usize = 0;
    while i < names.len()
        invariant
            i <= names.len(),
            items == names.deep_view(),
            wanted == present_in(vars@),
            first_where(items, wanted, 0) == first_where(items, wanted, i as int),
        decreases names.len() - i,
    {
        if vars.contains_key(names[i].as_str()) {
            assert(wanted(items[i as int]));
            return Some(i);
        }
        assert(!wanted(items[i as int]));
        i = i + 1;
    }
    None
}

/// Detects the mode for one configuration.
#[derive(Debug)]
pub struct Detector<'a> {
    config: &'a Config,
}

impl<'a> Detector<'a> {
    /// A detector that looks for the variables that `config` adds to the known
    /// ones.
    pub fn new(config: &'a Config) -> (detector: Self)
        ensures
            detector.custom_vars() == config.detection.agent_env_vars.deep_view(),
    {
        Detector { config }
    }

    /// The variables that the configuration adds to the known ones.
    pub closed spec fn custom_vars(&self) -> Seq<Seq<char>> {
        self.config.detection.agent_env_vars.deep_view()
    }

    /// The mode that `env` points to, with the reason; see [`spec_detect`] for
    /// what decides.
    pub fn detect(&self, env: &Environment) -> (detection: Detection)
        ensures
            (detection.mode, detection.reason@) == spec_detect(
                self.custom_vars(),
                env.vars@,
                env.stdin_is_tty,
                env.stdout_is_tty,
            ),
    {
        if let Some(value) = env.vars.get("APC_MODE") {
            let mode = match Mode::parse(value.as_str()) {
                Ok(mode) => mode,
                Err(_) => Mode::Human,
            };
            return Detection { mode, reason: DetectionReason::ExplicitApcMode(value.clone()) };
        }
        if let Some(value) = env.vars.get("AGENT_MODE") {
            if str_eq(value.as_str(), "1") || eq_ignore_ascii_case(value.as_str(), "true") {
                return Detection { mode: Mode::Agent, reason: DetectionReason::ExplicitAgentMode };
            }
        }
        let known = known_agent_env_vars();
        if let Some(i) = first_known(&known, &env.vars) {
            return Detection {
                mode: Mode::Agent,
                reason: DetectionReason::KnownAgentEnvVar(known[i].to_string()),
            };
        }
        if let Some(i) = first_custom(&self.config.detection.agent_env_vars, &env.vars) {
            return Detection {
                mode: Mode::Agent,
                reason: DetectionReason::CustomAgentEnvVar(
                    self.config.detection.agent_env_vars[i].clone(),
                ),
            };
        }
        let ci = known_ci_env_vars();
        if let Some(i) = first_known(&ci, &env.vars) {
            return Detection {
                mode: Mode::Ci,
                reason: DetectionReason::CiEnvironment(ci[i].to_string()),
            };
        }
        if !env.stdin_is_tty && !env.stdout_is_tty {
            return Detection { mode: Mode::Agent, reason: DetectionReason::NoTty };
        }
        Detection { mode: Mode::Human, reason: DetectionReason::Default }
    }
}

} // verus!
