//! The protocol between the owner of a child process and the executor.

use agent_precommit::engine::duration::Duration;
use agent_precommit::engine::error::Error;
use agent_precommit::engine::executor::{
    CommandOutput, ExecAction, ExecEvent, ExecPhase, ExecuteOptions, Executor, StopCause, Stream,
};

fn exited(code: Option<i32>) -> ExecEvent {
    ExecEvent::Exited {
        code,
        stdout: "out".to_string(),
        stderr: "err".to_string(),
    }
}

fn finish(action: ExecAction) -> Result<CommandOutput, Error> {
    match action {
        ExecAction::Finish(outcome) => outcome,
        other => panic!("expected an outcome, got {other:?}"),
    }
}

#[test]
fn launch_uses_the_posix_shell() {
    let launch = Executor::new().launch("echo hi | wc -c", ExecuteOptions::default(), false);
    assert_eq!(launch.program, "sh");
    assert_eq!(launch.args, vec!["-c".to_string(), "echo hi | wc -c".to_string()]);
    assert_eq!(launch.cwd, None);
    assert!(launch.env.is_empty());
    assert!(launch.capture_output);
    assert_eq!(launch.timeout, Some(Duration::from_secs(300)));
}

#[test]
fn launch_uses_cmd_on_windows() {
    let launch = Executor::new().launch("dir", ExecuteOptions::default(), true);
    assert_eq!(launch.program, "cmd");
    assert_eq!(launch.args, vec!["/C".to_string(), "dir".to_string()]);
}

#[test]
fn launch_carries_the_options_over() {
    let mut options = ExecuteOptions::default()
        .cwd("/work")
        .timeout(Duration::from_millis(1500))
        .env("A", "1")
        .env("B", "2")
        .capture_output(false);
    options.shell = Some("bash".to_string());
    let launch = Executor::new().launch("", options, false);
    assert_eq!(launch.program, "bash");
    assert_eq!(launch.args, vec!["-c".to_string(), String::new()]);
    assert_eq!(launch.cwd, Some("/work".to_string()));
    assert_eq!(
        launch.env,
        vec![
            ("A".to_string(), "1".to_string()),
            ("B".to_string(), "2".to_string())
        ]
    );
    assert!(!launch.capture_output);
    assert_eq!(launch.timeout, Some(Duration { secs: 1, nanos: 500_000_000 }));
}

#[test]
fn a_process_that_ends_by_itself_gives_its_own_outcome() {
    let executor = Executor::new();
    let (phase, action) = executor.advance(ExecPhase::Ready, ExecEvent::Started, Duration::zero());
    assert!(matches!(phase, ExecPhase::Running));
    assert!(matches!(action, ExecAction::Wait));
    let (phase, action) = executor.advance(phase, exited(Some(7)), Duration::from_secs(2));
    assert!(matches!(phase, ExecPhase::Done));
    let output = finish(action).expect("an outcome");
    assert_eq!(output.exit_code, 7);
    assert_eq!(output.stdout, "out");
    assert_eq!(output.stderr, "err");
    assert!(!output.timed_out);
    assert_eq!(output.duration, Duration::from_secs(2));
    assert!(!output.success());
}

#[test]
fn a_process_without_exit_code_counts_as_exit_code_one() {
    let (_, action) =
        Executor::new().advance(ExecPhase::Running, exited(None), Duration::zero());
    let output = finish(action).expect("an outcome");
    assert_eq!(output.exit_code, 1);
    assert!(!output.success());
}

#[test]
fn exit_code_zero_is_success() {
    let (_, action) =
        Executor::new().advance(ExecPhase::Running, exited(Some(0)), Duration::zero());
    let output = finish(action).expect("an outcome");
    assert_eq!(output.exit_code, 0);
    assert!(output.success());
}

#[test]
fn a_timeout_kills_first_and_then_reports() {
    let executor = Executor::new();
    let (phase, action) =
        executor.advance(ExecPhase::Running, ExecEvent::TimedOut, Duration::from_millis(100));
    assert!(matches!(phase, ExecPhase::Stopping(StopCause::TimedOut)));
    assert!(matches!(action, ExecAction::Kill));
    let (phase, action) = executor.advance(phase, ExecEvent::Killed, Duration::from_millis(120));
    assert!(matches!(phase, ExecPhase::Done));
    let output = finish(action).expect("an outcome");
    assert_eq!(output.exit_code, 124);
    assert!(output.timed_out);
    assert!(output.stdout.is_empty());
    assert!(output.stderr.is_empty());
    assert_eq!(output.duration, Duration::from_millis(120));
    assert!(!output.success());
}

#[test]
fn spawn_failure_is_an_io_error() {
    let (phase, action) = Executor::new().advance(
        ExecPhase::Ready,
        ExecEvent::SpawnFailed("no such file".to_string()),
        Duration::zero(),
    );
    assert!(matches!(phase, ExecPhase::Done));
    let error = finish(action).expect_err("an error");
    assert!(matches!(&error, Error::Io { message, source }
        if message == "spawn command" && source == "no such file"));
    assert_eq!(error.to_string(), "I/O error: spawn command");
}

#[test]
fn wait_failure_kills_before_it_reports() {
    let executor = Executor::new();
    let (phase, action) = executor.advance(
        ExecPhase::Running,
        ExecEvent::WaitFailed("interrupted".to_string()),
        Duration::zero(),
    );
    assert!(matches!(&phase, ExecPhase::Stopping(StopCause::WaitFailed(why)) if why == "interrupted"));
    assert!(matches!(action, ExecAction::Kill));
    let (_, action) = executor.advance(phase, ExecEvent::Killed, Duration::zero());
    let error = finish(action).expect_err("an error");
    assert!(matches!(&error, Error::Io { message, source }
        if message == "wait for command" && source == "interrupted"));
}

#[test]
fn capture_failure_is_an_internal_error_naming_the_stream() {
    for (stream, text) in [
        (Stream::Stdout, "stdout task failed: cancelled"),
        (Stream::Stderr, "stderr task failed: cancelled"),
    ] {
        let (_, action) = Executor::new().advance(
            ExecPhase::Running,
            ExecEvent::CaptureFailed {
                stream,
                reason: "cancelled".to_string(),
            },
            Duration::zero(),
        );
        let error = finish(action).expect_err("an error");
        assert!(matches!(&error, Error::Internal { message } if message == text));
    }
    assert_eq!(Stream::Stdout.name(), "stdout");
    assert_eq!(Stream::Stderr.name(), "stderr");
}

#[test]
fn events_out_of_turn_end_in_an_internal_error() {
    let executor = Executor::new();
    let words = "Unexpected event while running a command";
    let (phase, action) = executor.advance(ExecPhase::Ready, exited(Some(0)), Duration::zero());
    assert!(matches!(phase, ExecPhase::Done));
    assert!(matches!(finish(action), Err(Error::Internal { message }) if message == words));

    let (phase, action) = executor.advance(ExecPhase::Done, ExecEvent::Started, Duration::zero());
    assert!(matches!(phase, ExecPhase::Done));
    assert!(matches!(finish(action), Err(Error::Internal { message }) if message == words));

    // While a process may be alive, it is killed before the error is reported.
    let (phase, action) = executor.advance(ExecPhase::Running, ExecEvent::Started, Duration::zero());
    assert!(matches!(phase, ExecPhase::Stopping(StopCause::Unexpected)));
    assert!(matches!(action, ExecAction::Kill));
    let (phase, action) = executor.advance(phase, ExecEvent::Killed, Duration::zero());
    assert!(matches!(phase, ExecPhase::Done));
    assert!(matches!(finish(action), Err(Error::Internal { message }) if message == words));
}

#[test]
fn while_a_process_runs_only_its_end_gives_an_outcome() {
    let executor = Executor::new();
    let events = || {
        vec![
            ExecEvent::Started,
            ExecEvent::SpawnFailed("x".to_string()),
            ExecEvent::WaitFailed("x".to_string()),
            ExecEvent::TimedOut,
            ExecEvent::Killed,
        ]
    };
    for event in events() {
        let (phase, action) = executor.advance(ExecPhase::Running, event, Duration::zero());
        assert!(matches!(action, ExecAction::Kill));
        assert!(matches!(phase, ExecPhase::Stopping(_)));
    }
}

#[test]
fn killed_and_exited_outcomes() {
    let killed = CommandOutput::killed(Duration::from_secs(3));
    assert_eq!(killed.exit_code, 124);
    assert!(killed.timed_out);
    let ended = CommandOutput::exited(None, "a".to_string(), "b".to_string(), Duration::zero());
    assert_eq!(ended.exit_code, 1);
    assert_eq!(ended.combined_output(), "a\nb");
}
