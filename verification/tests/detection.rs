use agent_precommit::config::Config;
use agent_precommit::engine::detector::{
    known_agent_env_vars, known_ci_env_vars, DetectionReason, Detector, Environment, Mode,
};
use agent_precommit::namemap::NameMap;

/// A snapshot of the surroundings that a test fills in.
struct EnvGuard {
    env: Environment,
}

impl EnvGuard {
    fn new() -> Self {
        Self {
            env: Environment {
                vars: NameMap::new(),
                stdin_is_tty: true,
                stdout_is_tty: true,
            },
        }
    }

    fn set(&mut self, key: &str, value: &str) {
        self.env.vars.insert(key.to_string(), value.to_string());
    }

    /// Starts from a state in which no detection variable is set.
    fn clear_all_detection_vars(&mut self) {
        self.env.vars = NameMap::new();
        for var in known_agent_env_vars() {
            assert!(!self.env.vars.contains_key(var));
        }
        for var in known_ci_env_vars() {
            assert!(!self.env.vars.contains_key(var));
        }
    }
}

#[test]
fn test_detect_apc_mode_human() {
    let mut guard = EnvGuard::new();
    guard.clear_all_detection_vars();
    guard.set("APC_MODE", "human");

    let config = Config::default();
    let detector = Detector::new(&config);
    let detection = detector.detect(&guard.env);

    assert_eq!(detection.mode, Mode::Human);
    assert!(matches!(
        detection.reason,
        DetectionReason::ExplicitApcMode(_)
    ));
}

#[test]
fn test_detect_apc_mode_agent() {
    let mut guard = EnvGuard::new();
    guard.clear_all_detection_vars();
    guard.set("APC_MODE", "agent");

    let config = Config::default();
    let detector = Detector::new(&config);
    let detection = detector.detect(&guard.env);

    assert_eq!(detection.mode, Mode::Agent);
    assert!(matches!(
        detection.reason,
        DetectionReason::ExplicitApcMode(_)
    ));
}

#[test]
fn test_detect_apc_mode_ci() {
    let mut guard = EnvGuard::new();
    guard.clear_all_detection_vars();
    guard.set("APC_MODE", "ci");

    let config = Config::default();
    let detector = Detector::new(&config);
    let detection = detector.detect(&guard.env);

    assert_eq!(detection.mode, Mode::Ci);
}

#[test]
fn test_detect_apc_mode_invalid_falls_back_to_human() {
    let mut guard = EnvGuard::new();
    guard.clear_all_detection_vars();
    guard.set("APC_MODE", "invalid_value");

    let config = Config::default();
    let detector = Detector::new(&config);
    let detection = detector.detect(&guard.env);

    // Invalid APC_MODE parses to Human (the unwrap_or default)
    assert_eq!(detection.mode, Mode::Human);
}

#[test]
fn test_detect_agent_mode_flag() {
    let mut guard = EnvGuard::new();
    guard.clear_all_detection_vars();
    guard.set("AGENT_MODE", "1");

    let config = Config::default();
    let detector = Detector::new(&config);
    let detection = detector.detect(&guard.env);

    assert_eq!(detection.mode, Mode::Agent);
    assert_eq!(detection.reason, DetectionReason::ExplicitAgentMode);
}

#[test]
fn test_detect_agent_mode_flag_true() {
    let mut guard = EnvGuard::new();
    guard.clear_all_detection_vars();
    guard.set("AGENT_MODE", "true");

    let config = Config::default();
    let detector = Detector::new(&config);
    let detection = detector.detect(&guard.env);

    assert_eq!(detection.mode, Mode::Agent);
    assert_eq!(detection.reason, DetectionReason::ExplicitAgentMode);
}

#[test]
fn test_detect_agent_mode_flag_false_ignored() {
    let mut guard = EnvGuard::new();
    guard.clear_all_detection_vars();
    guard.set("AGENT_MODE", "0");

    let config = Config::default();
    let detector = Detector::new(&config);
    let detection = detector.detect(&guard.env);

    // AGENT_MODE=0 should NOT trigger agent mode
    assert_ne!(detection.reason, DetectionReason::ExplicitAgentMode);
}

#[test]
fn test_detect_known_agent_env_var_claude_code() {
    let mut guard = EnvGuard::new();
    guard.clear_all_detection_vars();
    guard.set("CLAUDE_CODE", "1");

    let config = Config::default();
    let detector = Detector::new(&config);
    let detection = detector.detect(&guard.env);

    assert_eq!(detection.mode, Mode::Agent);
    assert_eq!(
        detection.reason,
        DetectionReason::KnownAgentEnvVar("CLAUDE_CODE".to_string())
    );
}

#[test]
fn test_detect_known_agent_env_var_cursor() {
    let mut guard = EnvGuard::new();
    guard.clear_all_detection_vars();
    guard.set("CURSOR_SESSION", "test-session");

    let config = Config::default();
    let detector = Detector::new(&config);
    let detection = detector.detect(&guard.env);

    assert_eq!(detection.mode, Mode::Agent);
    assert_eq!(
        detection.reason,
        DetectionReason::KnownAgentEnvVar("CURSOR_SESSION".to_string())
    );
}

#[test]
fn test_detect_custom_agent_env_var() {
    let mut guard = EnvGuard::new();
    guard.clear_all_detection_vars();
    guard.set("MY_CUSTOM_AGENT_VAR_12345", "1");

    let mut config = Config::default();
    config.detection.agent_env_vars = vec!["MY_CUSTOM_AGENT_VAR_12345".to_string()];

    let detector = Detector::new(&config);
    let detection = detector.detect(&guard.env);

    assert_eq!(detection.mode, Mode::Agent);
    assert_eq!(
        detection.reason,
        DetectionReason::CustomAgentEnvVar("MY_CUSTOM_AGENT_VAR_12345".to_string())
    );
}

#[test]
fn detector_test_detect_ci_environment() {
    let mut guard = EnvGuard::new();
    guard.clear_all_detection_vars();
    guard.set("GITHUB_ACTIONS", "true");

    let config = Config::default();
    let detector = Detector::new(&config);
    let detection = detector.detect(&guard.env);

    assert_eq!(detection.mode, Mode::Ci);
    assert_eq!(
        detection.reason,
        DetectionReason::CiEnvironment("GITHUB_ACTIONS".to_string())
    );
}

#[test]
fn test_detect_priority_apc_mode_over_agent_mode() {
    let mut guard = EnvGuard::new();
    guard.clear_all_detection_vars();
    guard.set("APC_MODE", "human");
    guard.set("AGENT_MODE", "1");

    let config = Config::default();
    let detector = Detector::new(&config);
    let detection = detector.detect(&guard.env);

    // APC_MODE should take priority over AGENT_MODE
    assert_eq!(detection.mode, Mode::Human);
    assert!(matches!(
        detection.reason,
        DetectionReason::ExplicitApcMode(_)
    ));
}

#[test]
fn test_detect_priority_agent_mode_over_known_vars() {
    let mut guard = EnvGuard::new();
    guard.clear_all_detection_vars();
    guard.set("AGENT_MODE", "1");
    guard.set("CI", "true");

    let config = Config::default();
    let detector = Detector::new(&config);
    let detection = detector.detect(&guard.env);

    // AGENT_MODE should take priority over CI
    assert_eq!(detection.mode, Mode::Agent);
    assert_eq!(detection.reason, DetectionReason::ExplicitAgentMode);
}

#[test]
fn test_detect_priority_known_vars_over_ci() {
    let mut guard = EnvGuard::new();
    guard.clear_all_detection_vars();
    guard.set("CLAUDE_CODE", "1");
    guard.set("CI", "true");

    let config = Config::default();
    let detector = Detector::new(&config);
    let detection = detector.detect(&guard.env);

    // Known agent vars should take priority over CI
    assert_eq!(detection.mode, Mode::Agent);
    assert!(matches!(
        detection.reason,
        DetectionReason::KnownAgentEnvVar(_)
    ));
}

#[test]
fn detect_without_indicators_is_human_by_default() {
    let guard = EnvGuard::new();
    let config = Config::default();
    let detection = Detector::new(&config).detect(&guard.env);
    assert_eq!(detection.mode, Mode::Human);
    assert_eq!(detection.reason, DetectionReason::Default);
    assert_eq!(detection.reason.to_string(), "Default (no agent indicators)");
}

#[test]
fn detect_without_terminals_is_agent() {
    let mut guard = EnvGuard::new();
    guard.env.stdin_is_tty = false;
    guard.env.stdout_is_tty = false;
    let config = Config::default();
    let detection = Detector::new(&config).detect(&guard.env);
    assert_eq!(detection.mode, Mode::Agent);
    assert_eq!(detection.reason, DetectionReason::NoTty);
}

#[test]
fn detect_with_one_terminal_is_still_human() {
    let config = Config::default();
    for (stdin, stdout) in [(true, false), (false, true)] {
        let mut guard = EnvGuard::new();
        guard.env.stdin_is_tty = stdin;
        guard.env.stdout_is_tty = stdout;
        let detection = Detector::new(&config).detect(&guard.env);
        assert_eq!(detection.mode, Mode::Human);
        assert_eq!(detection.reason, DetectionReason::Default);
    }
}

#[test]
fn detect_keeps_the_value_of_apc_mode_and_ignores_its_case() {
    let mut guard = EnvGuard::new();
    guard.set("APC_MODE", "AGENT");
    let config = Config::default();
    let detection = Detector::new(&config).detect(&guard.env);
    assert_eq!(detection.mode, Mode::Agent);
    assert_eq!(
        detection.reason,
        DetectionReason::ExplicitApcMode("AGENT".to_string())
    );
    assert_eq!(detection.reason.to_string(), "APC_MODE=AGENT");
}

#[test]
fn detect_agent_mode_flag_ignores_ascii_case_only() {
    let config = Config::default();
    for (value, on) in [
        ("TRUE", true),
        ("True", true),
        ("tRuE", true),
        ("1", true),
        ("yes", false),
        ("true ", false),
        ("", false),
        ("11", false),
    ] {
        let mut guard = EnvGuard::new();
        guard.set("AGENT_MODE", value);
        let detection = Detector::new(&config).detect(&guard.env);
        assert_eq!(
            detection.reason == DetectionReason::ExplicitAgentMode,
            on,
            "AGENT_MODE={value}"
        );
    }
}

#[test]
fn detect_names_the_first_known_variable_in_list_order() {
    let mut guard = EnvGuard::new();
    guard.set("CODING_AGENT", "1");
    guard.set("CURSOR_SESSION", "1");
    guard.set("AIDER_MODEL", "1");
    let config = Config::default();
    let detection = Detector::new(&config).detect(&guard.env);
    assert_eq!(
        detection.reason,
        DetectionReason::KnownAgentEnvVar("CURSOR_SESSION".to_string())
    );
}

#[test]
fn detect_priority_custom_vars_over_ci_and_known_over_custom() {
    let mut config = Config::default();
    config.detection.agent_env_vars = vec!["FIRST_CUSTOM".to_string(), "SECOND_CUSTOM".to_string()];
    let mut guard = EnvGuard::new();
    guard.set("SECOND_CUSTOM", "x");
    guard.set("CI", "true");
    let detection = Detector::new(&config).detect(&guard.env);
    assert_eq!(detection.mode, Mode::Agent);
    assert_eq!(
        detection.reason,
        DetectionReason::CustomAgentEnvVar("SECOND_CUSTOM".to_string())
    );
    guard.set("FIRST_CUSTOM", "x");
    let detection = Detector::new(&config).detect(&guard.env);
    assert_eq!(
        detection.reason,
        DetectionReason::CustomAgentEnvVar("FIRST_CUSTOM".to_string())
    );
    guard.set("REPL_ID", "x");
    let detection = Detector::new(&config).detect(&guard.env);
    assert_eq!(
        detection.reason,
        DetectionReason::KnownAgentEnvVar("REPL_ID".to_string())
    );
}

#[test]
fn detect_ci_over_missing_terminals() {
    let mut guard = EnvGuard::new();
    guard.env.stdin_is_tty = false;
    guard.env.stdout_is_tty = false;
    guard.set("FLY_APP_NAME", "app");
    let config = Config::default();
    let detection = Detector::new(&config).detect(&guard.env);
    assert_eq!(detection.mode, Mode::Ci);
    assert_eq!(
        detection.reason,
        DetectionReason::CiEnvironment("FLY_APP_NAME".to_string())
    );
}

#[test]
fn mode_parse_keeps_the_text_in_its_error() {
    assert_eq!(
        Mode::parse("robot"),
        Err("Invalid mode: robot. Expected: human, agent, or ci".to_string())
    );
    assert_eq!(Mode::parse("Ci"), Ok(Mode::Ci));
    assert_eq!(Mode::parse(" human"), Err("Invalid mode:  human. Expected: human, agent, or ci".to_string()));
    assert_eq!(Mode::parse(""), Err("Invalid mode: . Expected: human, agent, or ci".to_string()));
}

#[test]
fn modes_are_named_in_lower_case() {
    assert_eq!(Mode::from_lowercase("human"), Some(Mode::Human));
    assert_eq!(Mode::from_lowercase("agent"), Some(Mode::Agent));
    assert_eq!(Mode::from_lowercase("ci"), Some(Mode::Ci));
    assert_eq!(Mode::from_lowercase("Human"), None);
    assert_eq!(Mode::from_lowercase("CI"), None);
    assert_eq!(Mode::from_lowercase(""), None);
    assert_eq!(Mode::from_lowercase("humans"), None);
}
