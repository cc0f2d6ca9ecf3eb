//! What it takes to run one shell command under a time budget: the options,
//! the process to start, the protocol between the caller that owns the child
//! process and the rules that judge it, and the outcome.

use vstd::prelude::*;
use crate::engine::duration::Duration;
use crate::engine::error::{Error, EXIT_TIMEOUT};
use crate::text::concat;

verus! {

/// The time budget of a command where none is given, in seconds.
pub const DEFAULT_TIMEOUT_SECS: u64 = 300;

/// The exit code reported for a process that ended without one, as one killed
/// by a signal does.
pub const EXIT_WITHOUT_CODE: i32 = 1;

/// The outcome of one command.
#[derive(Debug, Clone)]
pub struct CommandOutput {
    /// The exit code; 124 for a command that ran over its budget.
    pub exit_code: i32,
    /// What the command wrote to standard output.
    pub stdout: String,
    /// What the command wrote to standard error.
    pub stderr: String,
    /// Whether the command was killed for running over its budget.
    pub timed_out: bool,
    /// How long the command ran.
    pub duration: Duration,
}

/// The view of a [`CommandOutput`].
pub struct CommandOutputView {
    pub exit_code: i32,
    pub stdout: Seq<char>,
    pub stderr: Seq<char>,
    pub timed_out: bool,
    pub duration: Duration,
}

impl View for CommandOutput {
    type V = CommandOutputView;

    open spec fn view(&self) -> CommandOutputView {
        CommandOutputView {
            exit_code: self.exit_code,
            stdout: self.stdout@,
            stderr: self.stderr@,
            timed_out: self.timed_out,
            duration: self.duration,
        }
    }
}

impl CommandOutputView {
    /// A command succeeds when it exits with 0 within its budget.
    pub open spec fn success(self) -> bool {
        self.exit_code == 0 && !self.timed_out
    }

    /// Both streams as one text: the one that is not empty, or standard output,
    /// a line break and standard error.
    pub open spec fn combined_output(self) -> Seq<char> {
        if self.stderr.len() == 0 {
            self.stdout
        } else if self.stdout.len() == 0 {
            self.stderr
        } else {
            self.stdout + "\n"@ + self.stderr
        }
    }

    /// The outcome of a process that ended by itself: its exit code, or 1 where
    /// it has none, and what it wrote.
    pub open spec fn exited(
        code: Option<i32>,
        stdout: Seq<char>,
        stderr: Seq<char>,
        elapsed: Duration,
    ) -> Self {
        CommandOutputView {
            exit_code: match code {
                Some(c) => c,
                None => EXIT_WITHOUT_CODE,
            },
            stdout,
            stderr,
            timed_out: false,
            duration: elapsed,
        }
    }

    /// The outcome of a process that was killed for running over its budget.
    pub open spec fn killed(elapsed: Duration) -> Self {
        CommandOutputView {
            exit_code: EXIT_TIMEOUT,
            stdout: Seq::empty(),
            stderr: Seq::empty(),
            timed_out: true,
            duration: elapsed,
        }
    }
}

impl CommandOutput {
    /// Whether the command exited with 0 within its budget.
    pub fn success(&self) -> (ok: bool)
        ensures
            ok == self@.success(),
    {
        self.exit_code == 0 && !self.timed_out
    }

    /// Both streams as one text.
    pub fn combined_output(&self) -> (text: String)
        ensures
            text@ == self@.combined_output(),
    {
        if self.stderr.as_str().is_empty() {
            self.stdout.clone()
        } else if self.stdout.as_str().is_empty() {
            self.stderr.clone()
        } else {
            let head = concat(self.stdout.as_str(), "\n");
            concat(head.as_str(), self.stderr.as_str())
        }
    }

    /// The outcome of a process that ended by itself.
    pub fn exited(code: Option<i32>, stdout: String, stderr: String, elapsed: Duration) -> (output:
        Self)
        ensures
            output@ == CommandOutputView::exited(code, stdout@, stderr@, elapsed),
    {
        let exit_code = match code {
            Some(c) => c,
            None => EXIT_WITHOUT_CODE,
        };
        CommandOutput { exit_code, stdout, stderr, timed_out: false, duration: elapsed }
    }

    /// The outcome of a process that was killed for running over its budget.
    pub fn killed(elapsed: Duration) -> (output: Self)
        ensures
            output@ == CommandOutputView::killed(elapsed),
            !output@.success(),
    {
        CommandOutput {
            exit_code: EXIT_TIMEOUT,
            stdout: String::new(),
            stderr: String::new(),
            timed_out: true,
            duration: elapsed,
        }
    }
}

/// The view of a list of environment settings.
pub open spec fn env_view(env: Seq<(String, String)>) -> Seq<(Seq<char>, Seq<char>)> {
    Seq::new(env.len(), |i: int| (env[i].0@, env[i].1@))
}

/// How a command is run.
#[derive(Debug, Clone)]
pub struct ExecuteOptions {
    /// The directory to run in; the caller's own where absent.
    pub cwd: Option<String>,
    /// The time budget; none where absent.
    pub timeout: Option<Duration>,
    /// Environment variables to set, in order; a later one shadows an earlier
    /// one of the same name.
    pub env: Vec<(String, String)>,
    /// Whether output is captured, or goes to the caller's own streams.
    pub capture_output: bool,
    /// The shell to use; the platform's own where absent.
    pub shell: Option<String>,
}

/// The view of [`ExecuteOptions`].
pub struct ExecuteOptionsView {
    pub cwd: Option<Seq<char>>,
    pub timeout: Option<Duration>,
    pub env: Seq<(Seq<char>, Seq<char>)>,
    pub capture_output: bool,
    pub shell: Option<Seq<char>>,
}

impl View for ExecuteOptions {
    type V = ExecuteOptionsView;

    open spec fn view(&self) -> ExecuteOptionsView {
        ExecuteOptionsView {
            cwd: match self.cwd {
                Some(dir) => Some(dir@),
                None => None,
            },
            timeout: self.timeout,
            env: env_view(self.env@),
            capture_output: self.capture_output,
            shell: match self.shell {
                Some(shell) => Some(shell@),
                None => None,
            },
        }
    }
}

impl ExecuteOptionsView {
    /// The options that hold where nothing is asked for: five minutes, output
    /// captured, the caller's directory and environment, the platform's shell.
    pub open spec fn default_options() -> Self {
        ExecuteOptionsView {
            cwd: None,
            timeout: Some(Duration { secs: DEFAULT_TIMEOUT_SECS, nanos: 0 }),
            env: Seq::empty(),
            capture_output: true,
            shell: None,
        }
    }
}

impl Default for ExecuteOptions {
    fn default() -> (options: Self)
        ensures
            options@ == ExecuteOptionsView::default_options(),
    {
        let options = ExecuteOptions {
            cwd: None,
            timeout: Some(Duration::from_secs(DEFAULT_TIMEOUT_SECS)),
            env: Vec::new(),
            capture_output: true,
            shell: None,
        };
        assert(env_view(options.env@) =~= Seq::empty());
        options
    }
}

impl ExecuteOptions {
    /// The same options with `path` as the directory to run in.
    pub fn cwd(self, path: &str) -> (options: Self)
        ensures
            options@ == (ExecuteOptionsView { cwd: Some(path@), ..self@ }),
    {
        ExecuteOptions { cwd: Some(path.to_string()), ..self }
    }

    /// The same options with `duration` as the time budget.
    pub fn timeout(self, duration: Duration) -> (options: Self)
        ensures
            options@ == (ExecuteOptionsView { timeout: Some(duration), ..self@ }),
    {
        ExecuteOptions { timeout: Some(duration), ..self }
    }

    /// The same options with one more environment variable, set after the
    /// others.
    pub fn env(self, key: &str, value: &str) -> (options: Self)
        ensures
            options@ == (ExecuteOptionsView { env: self@.env.push((key@, value@)), ..self@ }),
    {
        let mut options = self;
        options.env.push((key.to_string(), value.to_string()));
        assert(env_view(options.env@) =~= self@.env.push((key@, value@)));
        options
    }

    /// The same options with output captured or not.
    pub fn capture_output(self, capture: bool) -> (options: Self)
        ensures
            options@ == (ExecuteOptionsView { capture_output: capture, ..self@ }),
    {
        ExecuteOptions { capture_output: capture, ..self }
    }
}

/// The process that runs a command: a shell that is handed the whole command
/// as one argument.
#[derive(Debug, Clone)]
pub struct Launch {
    /// The shell.
    pub program: String,
    /// Its arguments: the flag that announces a command, and the command.
    pub args: Vec<String>,
    /// The directory to run in; the caller's own where absent.
    pub cwd: Option<String>,
    /// Environment variables to set, in order.
    pub env: Vec<(String, String)>,
    /// Whether output is captured through pipes, or goes to the caller's own
    /// streams.
    pub capture_output: bool,
    /// How long to wait for the process before it is killed; without limit
    /// where absent.
    pub timeout: Option<Duration>,
}

/// The view of a [`Launch`].
pub struct LaunchView {
    pub program: Seq<char>,
    pub args: Seq<Seq<char>>,
    pub cwd: Option<Seq<char>>,
    pub env: Seq<(Seq<char>, Seq<char>)>,
    pub capture_output: bool,
    pub timeout: Option<Duration>,
}

impl View for Launch {
    type V = LaunchView;

    open spec fn view(&self) -> LaunchView {
        LaunchView {
            program: self.program@,
            args: self.args.deep_view(),
            cwd: match self.cwd {
                Some(dir) => Some(dir@),
                None => None,
            },
            env: env_view(self.env@),
            capture_output: self.capture_output,
            timeout: self.timeout,
        }
    }
}

impl LaunchView {
    /// The process for `command` under `options`: the shell of the options, or
    /// `cmd /C` on Windows and `sh -c` elsewhere, with the command as it
    /// stands.
    pub open spec fn of(command: Seq<char>, options: ExecuteOptionsView, windows: bool) -> Self {
        LaunchView {
            program: match options.shell {
                Some(shell) => shell,
                None => if windows {
                    "cmd"@
                } else {
                    "sh"@
                },
            },
            args: seq![
                if windows {
                    "/C"@
                } else {
                    "-c"@
                },
                command,
            ],
            cwd: options.cwd,
            env: options.env,
            capture_output: options.capture_output,
            timeout: options.timeout,
        }
    }
}

/// One of the two output streams of a process.
#[derive(Debug, Clone, Copy, PartialEq, Eq, Structural)]
pub enum Stream {
    /// Standard output.
    Stdout,
    /// Standard error.
    Stderr,
}

impl Stream {
    /// The name of the stream.
    pub open spec fn spec_name(self) -> Seq<char> {
        match self {
            Stream::Stdout => "stdout"@,
            Stream::Stderr => "stderr"@,
        }
    }

    /// The name of the stream.
    pub fn name(self) -> (name: &'static str)
        ensures
            name@ == self.spec_name(),
    {
        match self {
            Stream::Stdout => "stdout",
            Stream::Stderr => "stderr",
        }
    }
}

/// Why a process is killed.
#[derive(Debug)]
pub enum StopCause {
    /// It ran over its time budget.
    TimedOut,
    /// Waiting for it failed; the text says why.
    WaitFailed(String),
    /// An event came that does not belong to a running process.
    Unexpected,
}

/// Where the run of one command stands.
#[derive(Debug)]
pub enum ExecPhase {
    /// Nothing was started yet.
    Ready,
    /// The process runs and is waited for.
    Running,
    /// The process is being killed.
    Stopping(StopCause),
    /// The outcome was handed out.
    Done,
}

/// What the caller that owns the process has seen.
#[derive(Debug)]
pub enum ExecEvent {
    /// The process was started.
    Started,
    /// The process could not be started; the text says why.
    SpawnFailed(String),
    /// The process ended and its output was read to the end.
    Exited {
        /// The exit code, where the process has one.
        code: Option<i32>,
        /// What it wrote to standard output, where output is captured.
        stdout: String,
        /// What it wrote to standard error, where output is captured.
        stderr: String,
    },
    /// Waiting for the process failed; the text says why.
    WaitFailed(String),
    /// The process ended, but reading one of its streams failed.
    CaptureFailed {
        /// The stream.
        stream: Stream,
        /// Why reading failed.
        reason: String,
    },
    /// The time budget ran out before the process ended.
    TimedOut,
    /// The attempt to kill the process has returned.
    Killed,
}

/// What the caller that owns the process does next.
#[derive(Debug)]
pub enum ExecAction {
    /// Wait for the process to end, reading its output, for as long as the
    /// time budget allows.
    Wait,
    /// Kill the process and wait until it is gone.
    Kill,
    /// Hand out the outcome. A command that fails is an outcome; an error means
    /// that the command could not be run or watched.
    Finish(Result<CommandOutput, Error>),
}

/// The message for an event that does not belong to the phase it came in.
pub open spec fn unexpected_event() -> Seq<char> {
    "Unexpected event while running a command"@
}

/// Whether a process may still be alive in a phase: it is started and neither
/// seen to end nor killed.
pub open spec fn process_alive(phase: ExecPhase) -> bool {
    phase is Running
}

/// Whether an event says that the process has ended.
pub open spec fn process_ended(event: ExecEvent) -> bool {
    event is Exited || event is CaptureFailed
}

/// Whether `next` and `action` are the answer to `event` in `phase`, with
/// `elapsed` the time since just before the start.
pub open spec fn answers(
    phase: ExecPhase,
    event: ExecEvent,
    elapsed: Duration,
    next: ExecPhase,
    action: ExecAction,
) -> bool {
    match phase {
        ExecPhase::Ready => match event {
            ExecEvent::Started => next is Running && action is Wait,
            ExecEvent::SpawnFailed(why) => next is Done && fails_with_io(
                action,
                "spawn command"@,
                why@,
            ),
            _ => next is Done && fails_internally(action, unexpected_event()),
        },
        ExecPhase::Running => match event {
            ExecEvent::Exited { code, stdout, stderr } => next is Done && finishes_with(
                action,
                CommandOutputView::exited(code, stdout@, stderr@, elapsed),
            ),
            ExecEvent::CaptureFailed { stream, reason } => next is Done && fails_internally(
                action,
                stream.spec_name() + " task failed: "@ + reason@,
            ),
            ExecEvent::TimedOut => next == ExecPhase::Stopping(StopCause::TimedOut)
                && action is Kill,
            ExecEvent::WaitFailed(why) => stops_for(next, why@) && action is Kill,
            _ => next == ExecPhase::Stopping(StopCause::Unexpected) && action is Kill,
        },
        ExecPhase::Stopping(cause) => next is Done && match cause {
            StopCause::TimedOut => finishes_with(action, CommandOutputView::killed(elapsed)),
            StopCause::WaitFailed(why) => fails_with_io(action, "wait for command"@, why@),
            StopCause::Unexpected => fails_internally(action, unexpected_event()),
        },
        ExecPhase::Done => next is Done && fails_internally(action, unexpected_event()),
    }
}

/// The action hands out this outcome.
pub open spec fn finishes_with(action: ExecAction, outcome: CommandOutputView) -> bool {
    action matches ExecAction::Finish(Ok(output)) && output@ == outcome
}

/// The phase is that of a process being killed because waiting for it failed
/// with this fault.
pub open spec fn stops_for(phase: ExecPhase, fault: Seq<char>) -> bool {
    phase matches ExecPhase::Stopping(StopCause::WaitFailed(kept)) && kept@ == fault
}

/// The action hands out an I/O error with this message and source.
pub open spec fn fails_with_io(action: ExecAction, message: Seq<char>, source: Seq<char>) -> bool {
    action matches ExecAction::Finish(Err(Error::Io { message: m, source: s })) && m@ == message
        && s@ == source
}

/// The action hands out an internal error with this message.
pub open spec fn fails_internally(action: ExecAction, message: Seq<char>) -> bool {
    action matches ExecAction::Finish(Err(Error::Internal { message: m })) && m@ == message
}

/// Runs shell commands. It holds no state: the caller owns the process, and
/// asks here what to start and what to make of what it sees.
#[derive(Debug)]
pub struct Executor;

impl Default for Executor {
    fn default() -> Self {
        Executor
    }
}

impl Executor {
    /// A new executor.
    pub fn new() -> Self {
        Executor
    }

    /// Whether `command` names an executable that the search path leads to.
    ///
    /// Trusted: calls `which::which` and reports whether it found a path. The
    /// answer depends on the file system and the environment, so the contract
    /// promises nothing about it.
    #[verifier::external_body]
    pub fn command_exists(command: &str) -> bool {
        which::which(command).is_ok()
    }

    /// The process to start for `command` under `options`. The command is
    /// handed to the shell as it stands; nothing here reads or splits it.
    pub fn launch(&self, command: &str, options: ExecuteOptions, windows: bool) -> (launch: Launch)
        ensures
            launch@ == LaunchView::of(command@, options@, windows),
    {
        let program = match &options.shell {
            Some(shell) => shell.clone(),
            None => if windows {
                "cmd".to_string()
            } else {
                "sh".to_string()
            },
        };
        let flag = if windows {
            "/C"
        } else {
            "-c"
        };
        let mut args: Vec<String> = Vec::new();
        args.push(flag.to_string());
        args.push(command.to_string());
        let launch = Launch {
            program,
            args,
            cwd: options.cwd,
            env: options.env,
            capture_output: options.capture_output,
            timeout: options.timeout,
        };
        assert(launch.args.deep_view() =~= seq![flag@, command@]);
        launch
    }

    /// What to do after `event` was seen in `phase`, `elapsed` after the start
    /// was attempted.
    ///
    /// The outcome of a process that ended by itself is its own. One that ran
    /// over its budget is killed first, and its outcome is the timeout outcome.
    /// Where waiting fails, the process is killed before the error is handed
    /// out. An event that does not belong to the phase ends in an internal
    /// error, after a kill where a process may be alive. While a process is
    /// being killed, whatever event comes next is taken to mean that the
    /// attempt has returned.
    pub fn advance(&self, phase: ExecPhase, event: ExecEvent, elapsed: Duration) -> (answer: (
        ExecPhase,
        ExecAction,
    ))
        ensures
            answers(phase, event, elapsed, answer.0, answer.1),
    {
        match phase {
            ExecPhase::Ready => match event {
                ExecEvent::Started => (ExecPhase::Running, ExecAction::Wait),
                ExecEvent::SpawnFailed(why) => (
                    ExecPhase::Done,
                    ExecAction::Finish(Err(Error::io("spawn command", why.as_str()))),
                ),
                _ => (ExecPhase::Done, ExecAction::Finish(Err(unexpected()))),
            },
            ExecPhase::Running => match event {
                ExecEvent::Exited { code, stdout, stderr } => (
                    ExecPhase::Done,
                    ExecAction::Finish(Ok(CommandOutput::exited(code, stdout, stderr, elapsed))),
                ),
                ExecEvent::CaptureFailed { stream, reason } => {
                    let head = concat(stream.name(), " task failed: ");
                    let message = concat(head.as_str(), reason.as_str());
                    (ExecPhase::Done, ExecAction::Finish(Err(Error::Internal { message })))
                },
                ExecEvent::TimedOut => (
                    ExecPhase::Stopping(StopCause::TimedOut),
                    ExecAction::Kill,
                ),
                ExecEvent::WaitFailed(why) => (
                    ExecPhase::Stopping(StopCause::WaitFailed(why)),
                    ExecAction::Kill,
                ),
                _ => (ExecPhase::Stopping(StopCause::Unexpected), ExecAction::Kill),
            },
            ExecPhase::Stopping(cause) => match cause {
                StopCause::TimedOut => (
                    ExecPhase::Done,
                    ExecAction::Finish(Ok(CommandOutput::killed(elapsed))),
                ),
                StopCause::WaitFailed(why) => (
                    ExecPhase::Done,
                    ExecAction::Finish(Err(Error::io("wait for command", why.as_str()))),
                ),
                StopCause::Unexpected => (ExecPhase::Done, ExecAction::Finish(Err(unexpected()))),
            },
            ExecPhase::Done => (ExecPhase::Done, ExecAction::Finish(Err(unexpected()))),
        }
    }
}

/// The error for an event that does not belong to the phase it came in.
fn unexpected() -> (error: Error)
    ensures
        error matches Error::Internal { message } && message@ == unexpected_event(),
{
    Error::Internal { message: "Unexpected event while running a command".to_string() }
}

/// While a process may be alive, no outcome is handed out: an outcome follows
/// only an event that says the process has ended, or the kill.
pub proof fn lemma_outcome_after_process(
    phase: ExecPhase,
    event: ExecEvent,
    elapsed: Duration,
    next: ExecPhase,
    action: ExecAction,
)
    requires
        answers(phase, event, elapsed, next, action),
        process_alive(phase),
        action is Finish,
    ensures
        process_ended(event),
        next is Done,
{
}

/// A process that runs over its budget is killed, and its outcome is then the
/// timeout outcome whatever was seen of the kill: exit code 124, the timeout
/// flag set, no success.
pub proof fn lemma_timeout_outcome(
    seen: ExecEvent,
    elapsed: Duration,
    stopping: ExecPhase,
    kill: ExecAction,
    done: ExecPhase,
    finish: ExecAction,
)
    requires
        answers(ExecPhase::Running, ExecEvent::TimedOut, elapsed, stopping, kill),
        answers(stopping, seen, elapsed, done, finish),
    ensures
        kill is Kill,
        done is Done,
        finish matches ExecAction::Finish(Ok(output)) && output.timed_out && output.exit_code
            == EXIT_TIMEOUT && !output@.success(),
{
}

} // verus!
