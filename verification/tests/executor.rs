use agent_precommit::engine::duration::Duration;
use agent_precommit::engine::executor::{CommandOutput, ExecuteOptions, Executor};

#[test]
fn test_command_output_success() {
    let output = CommandOutput {
        exit_code: 0,
        stdout: "test".to_string(),
        stderr: String::new(),
        timed_out: false,
        duration: Duration::from_secs(1),
    };
    assert!(output.success());
}

#[test]
fn test_command_output_failure_exit_code() {
    let output = CommandOutput {
        exit_code: 1,
        stdout: String::new(),
        stderr: "error".to_string(),
        timed_out: false,
        duration: Duration::from_secs(1),
    };
    assert!(!output.success());
}

#[test]
fn test_command_output_failure_timeout() {
    let output = CommandOutput {
        exit_code: 0,
        stdout: String::new(),
        stderr: String::new(),
        timed_out: true,
        duration: Duration::from_secs(1),
    };
    assert!(!output.success());
}

#[test]
fn test_command_output_combined_output_stdout_only() {
    let output = CommandOutput {
        exit_code: 0,
        stdout: "stdout content".to_string(),
        stderr: String::new(),
        timed_out: false,
        duration: Duration::from_secs(1),
    };
    assert_eq!(output.combined_output(), "stdout content");
}

#[test]
fn test_command_output_combined_output_stderr_only() {
    let output = CommandOutput {
        exit_code: 0,
        stdout: String::new(),
        stderr: "stderr content".to_string(),
        timed_out: false,
        duration: Duration::from_secs(1),
    };
    assert_eq!(output.combined_output(), "stderr content");
}

#[test]
fn test_command_output_combined_output_both() {
    let output = CommandOutput {
        exit_code: 0,
        stdout: "stdout".to_string(),
        stderr: "stderr".to_string(),
        timed_out: false,
        duration: Duration::from_secs(1),
    };
    let combined = output.combined_output();
    assert!(combined.contains("stdout"));
    assert!(combined.contains("stderr"));
}

#[test]
fn test_command_output_combined_output_empty() {
    let output = CommandOutput {
        exit_code: 0,
        stdout: String::new(),
        stderr: String::new(),
        timed_out: false,
        duration: Duration::from_secs(1),
    };
    assert!(output.combined_output().is_empty());
}

#[test]
fn test_execute_options_default() {
    let options = ExecuteOptions::default();
    assert!(options.cwd.is_none());
    assert!(options.timeout.is_some());
    assert_eq!(options.timeout, Some(Duration::from_secs(300)));
    assert!(options.env.is_empty());
    assert!(options.capture_output);
    assert!(options.shell.is_none());
}

#[test]
fn test_execute_options_cwd() {
    let options = ExecuteOptions::default().cwd("/tmp");
    assert_eq!(options.cwd, Some(String::from("/tmp")));
}

#[test]
fn test_execute_options_timeout() {
    let options = ExecuteOptions::default().timeout(Duration::from_secs(60));
    assert_eq!(options.timeout, Some(Duration::from_secs(60)));
}

#[test]
fn test_execute_options_env() {
    let options = ExecuteOptions::default()
        .env("KEY1", "VALUE1")
        .env("KEY2", "VALUE2");
    assert_eq!(options.env.len(), 2);
    assert!(options
        .env
        .contains(&("KEY1".to_string(), "VALUE1".to_string())));
    assert!(options
        .env
        .contains(&("KEY2".to_string(), "VALUE2".to_string())));
}

#[test]
fn test_execute_options_capture_output() {
    let options = ExecuteOptions::default().capture_output(false);
    assert!(!options.capture_output);
}

#[test]
fn test_execute_options_chaining() {
    let options = ExecuteOptions::default()
        .cwd("/tmp")
        .timeout(Duration::from_secs(60))
        .env("TEST", "value")
        .capture_output(false);

    assert_eq!(options.cwd, Some(String::from("/tmp")));
    assert_eq!(options.timeout, Some(Duration::from_secs(60)));
    assert_eq!(options.env.len(), 1);
    assert!(!options.capture_output);
}

#[test]
fn test_executor_new() {
    let executor = Executor::new();
    // Verify we can create an executor
    let debug_str = format!("{:?}", executor);
    assert!(debug_str.contains("Executor"));
}

#[test]
fn test_executor_default() {
    let executor = Executor::default();
    let debug_str = format!("{:?}", executor);
    assert!(debug_str.contains("Executor"));
}

#[test]
fn test_command_exists() {
    // 'sh' and 'echo' exist wherever a POSIX shell runs the checks
    assert!(Executor::command_exists("sh"));
    assert!(Executor::command_exists("echo"));

    // This should not exist
    assert!(!Executor::command_exists(
        "definitely_not_a_real_command_12345"
    ));
}

#[test]
fn test_command_exists_common_tools() {
    // These should exist on most systems
    assert!(Executor::command_exists("ls"));
    assert!(Executor::command_exists("cat"));
}
