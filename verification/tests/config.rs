use agent_precommit::config::{
    AgentModeConfig, CheckConfig, Config, DetectionConfig, EnabledCondition, IntegrationConfig,
    ModeConfig, CONFIG_FILE_NAME,
};
use agent_precommit::namemap::NameMap;

#[test]
fn test_default_config() {
    let config = Config::default();
    assert!(!config.human.checks.is_empty());
    assert!(!config.agent.checks.is_empty());
}

#[test]
fn test_default_config_has_timeouts() {
    let config = Config::default();
    assert!(!config.human.timeout.is_empty());
    assert!(!config.agent.timeout.is_empty());
}

#[test]
fn test_default_config_has_checks() {
    let config = Config::default();
    // Default config should have some checks defined
    assert!(!config.checks.is_empty());
}

#[test]
fn test_config_validation() {
    let config = Config::default();
    assert!(config.validate().is_ok());
}

#[test]
fn test_invalid_human_timeout() {
    let mut config = Config::default();
    config.human.timeout = "invalid".to_string();
    let result = config.validate();
    assert!(result.is_err());
    let err_msg = result
        .expect_err("should fail for invalid timeout")
        .to_string();
    assert!(err_msg.contains("Invalid duration"));
}

#[test]
fn test_invalid_agent_timeout() {
    let mut config = Config::default();
    config.agent.timeout = "not_a_duration".to_string();
    let result = config.validate();
    assert!(result.is_err());
}

#[test]
fn test_valid_timeouts() {
    let mut config = Config::default();
    config.human.timeout = "30s".to_string();
    config.agent.timeout = "15m".to_string();
    assert!(config.validate().is_ok());
}

#[test]
fn test_check_with_empty_run_is_rejected() {
    let mut config = Config::default();
    config.checks.insert(
        "placeholder-check".to_string(),
        CheckConfig {
            run: String::new(),
            description: "Test".to_string(),
            enabled_if: None,
            env: NameMap::new(),
        },
    );
    config.human.checks.push("placeholder-check".to_string());
    let result = config.validate();
    assert!(result.is_err());
    let err_msg = result.expect_err("should fail for empty run").to_string();
    assert!(err_msg.contains("cannot be empty"));
}

#[test]
fn test_undefined_check_in_human_mode_is_rejected() {
    let mut config = Config::default();
    config.human.checks.push("nonexistent-check".to_string());
    let result = config.validate();
    assert!(result.is_err());
    let err_msg = result
        .expect_err("should fail for undefined check")
        .to_string();
    assert!(err_msg.contains("nonexistent-check"));
    assert!(err_msg.contains("not defined"));
}

#[test]
fn test_undefined_check_in_agent_mode_is_rejected() {
    let mut config = Config::default();
    config.agent.checks.push("nonexistent-check".to_string());
    let result = config.validate();
    assert!(result.is_err());
    let err_msg = result
        .expect_err("should fail for undefined check")
        .to_string();
    assert!(err_msg.contains("nonexistent-check"));
    assert!(err_msg.contains("not defined"));
}

#[test]
fn test_parallel_group_check_not_in_agent_checks_rejected() {
    let mut config = Config::default();
    config.checks.insert(
        "orphan-check".to_string(),
        CheckConfig {
            run: "echo orphan".to_string(),
            description: "Orphan".to_string(),
            enabled_if: None,
            env: NameMap::new(),
        },
    );
    // Add to parallel groups but NOT to agent.checks
    config.agent.parallel_groups = vec![vec!["orphan-check".to_string()]];
    let result = config.validate();
    assert!(result.is_err());
    let err_msg = result
        .expect_err("should fail for orphan parallel group check")
        .to_string();
    assert!(err_msg.contains("orphan-check"));
    assert!(err_msg.contains("parallel group"));
}

#[test]
fn test_check_definitions_are_stored() {
    let mut config = Config::default();
    config.checks.insert(
        "custom-check".to_string(),
        CheckConfig {
            run: "echo test".to_string(),
            description: "Custom check".to_string(),
            enabled_if: None,
            env: NameMap::new(),
        },
    );
    assert!(config.checks.contains_key("custom-check"));
}

#[test]
fn test_preset_python() {
    let config = Config::for_preset("python");
    assert!(config.checks.contains_key("test-unit"));
    assert!(config.checks.contains_key("build-verify"));
    // Python preset should have some checks configured
    assert!(!config.checks.is_empty());
}

#[test]
fn test_preset_rust() {
    let config = Config::for_preset("rust");
    assert!(config.checks.contains_key("clippy"));
    assert!(config.checks.contains_key("fmt-check"));
    assert!(config.checks.contains_key("test-unit"));
    assert!(config.checks.contains_key("build-verify"));
}

#[test]
fn test_preset_node() {
    let config = Config::for_preset("node");
    assert!(config.checks.contains_key("test-unit"));
    assert!(config.checks.contains_key("lint"));
}

#[test]
fn test_preset_go() {
    let config = Config::for_preset("go");
    assert!(config.checks.contains_key("test-unit"));
    assert!(config.checks.contains_key("fmt-check"));
    assert!(config.checks.contains_key("build-verify"));
}

#[test]
fn test_preset_invalid_falls_back_to_default() {
    let config = Config::for_preset("invalid_preset");
    // Should fall back to default
    assert!(config.validate().is_ok());
}

#[test]
fn test_preset_python_validates() {
    let config = Config::for_preset("python");
    assert!(config.validate().is_ok());
}

#[test]
fn test_preset_rust_validates() {
    let config = Config::for_preset("rust");
    assert!(config.validate().is_ok());
}

#[test]
fn test_preset_node_validates() {
    let config = Config::for_preset("node");
    assert!(config.validate().is_ok());
}

#[test]
fn test_preset_go_validates() {
    let config = Config::for_preset("go");
    assert!(config.validate().is_ok());
}

#[test]
fn test_mode_config_default() {
    let mode_config = ModeConfig::default();
    // Default human mode has pre-commit check
    assert!(!mode_config.checks.is_empty());
}

#[test]
fn test_mode_config_with_checks() {
    let mode_config = ModeConfig {
        checks: vec!["check1".to_string(), "check2".to_string()],
        timeout: "30s".to_string(),
        fail_fast: true,
    };
    assert_eq!(mode_config.checks.len(), 2);
}

#[test]
fn test_agent_mode_config_default() {
    let mode_config = AgentModeConfig::default();
    assert!(!mode_config.checks.is_empty());
    assert!(mode_config.parallel_groups.is_empty());
}

#[test]
fn test_agent_mode_config_with_parallel_groups() {
    let mode_config = AgentModeConfig {
        checks: vec![
            "check1".to_string(),
            "check2".to_string(),
            "check3".to_string(),
        ],
        timeout: "30s".to_string(),
        fail_fast: false,
        parallel_groups: vec![
            vec!["check1".to_string(), "check2".to_string()],
            vec!["check3".to_string()],
        ],
    };
    assert_eq!(mode_config.parallel_groups.len(), 2);
}

#[test]
fn test_check_config_basic() {
    let check = CheckConfig {
        run: "echo test".to_string(),
        description: "Test check".to_string(),
        enabled_if: None,
        env: NameMap::new(),
    };
    assert_eq!(check.run, "echo test");
    assert_eq!(check.description, "Test check");
}

#[test]
fn test_check_config_with_env() {
    let mut env = NameMap::new();
    env.insert("VAR1".to_string(), "value1".to_string());
    env.insert("VAR2".to_string(), "value2".to_string());

    let check = CheckConfig {
        run: "echo $VAR1".to_string(),
        description: "Check with env".to_string(),
        enabled_if: None,
        env,
    };
    assert_eq!(check.env.len(), 2);
    assert_eq!(check.env.get("VAR1"), Some(&"value1".to_string()));
}

#[test]
fn test_check_config_with_condition() {
    let check = CheckConfig {
        run: "cargo test".to_string(),
        description: "Cargo test".to_string(),
        enabled_if: Some(EnabledCondition {
            file_exists: Some("Cargo.toml".to_string()),
            dir_exists: None,
            command_exists: None,
        }),
        env: NameMap::new(),
    };
    assert!(check.enabled_if.is_some());
    let condition = check
        .enabled_if
        .as_ref()
        .expect("enabled_if should be Some");
    assert_eq!(condition.file_exists, Some("Cargo.toml".to_string()));
}

#[test]
fn test_enabled_condition_default() {
    let condition = EnabledCondition::default();
    assert!(condition.file_exists.is_none());
    assert!(condition.dir_exists.is_none());
    assert!(condition.command_exists.is_none());
}

#[test]
fn test_enabled_condition_file_exists() {
    let condition = EnabledCondition {
        file_exists: Some("package.json".to_string()),
        ..Default::default()
    };
    assert_eq!(condition.file_exists, Some("package.json".to_string()));
}

#[test]
fn test_enabled_condition_dir_exists() {
    let condition = EnabledCondition {
        dir_exists: Some("node_modules".to_string()),
        ..Default::default()
    };
    assert_eq!(condition.dir_exists, Some("node_modules".to_string()));
}

#[test]
fn test_enabled_condition_command_exists() {
    let condition = EnabledCondition {
        command_exists: Some("cargo".to_string()),
        ..Default::default()
    };
    assert_eq!(condition.command_exists, Some("cargo".to_string()));
}

#[test]
fn test_detection_config_default() {
    let config = DetectionConfig::default();
    assert!(config.agent_env_vars.is_empty());
    assert!(config.mode.is_none());
}

#[test]
fn test_detection_config_with_custom_vars() {
    let config = DetectionConfig {
        mode: None,
        agent_env_vars: vec!["MY_AGENT_VAR".to_string(), "ANOTHER_VAR".to_string()],
    };
    assert_eq!(config.agent_env_vars.len(), 2);
}

#[test]
fn test_detection_config_with_mode() {
    let config = DetectionConfig {
        mode: Some("agent".to_string()),
        agent_env_vars: vec![],
    };
    assert_eq!(config.mode, Some("agent".to_string()));
}

#[test]
fn test_integration_config_default() {
    let config = IntegrationConfig::default();
    assert!(!config.pre_commit);
    assert!(!config.pre_commit_path.is_empty());
}

#[test]
fn test_integration_config_enabled() {
    let config = IntegrationConfig {
        pre_commit: true,
        pre_commit_path: ".pre-commit-config.yaml".to_string(),
    };
    assert!(config.pre_commit);
}

#[test]
fn test_config_file_name_constant() {
    assert_eq!(CONFIG_FILE_NAME, "agent-precommit.toml");
}

#[test]
fn test_config_clone() {
    let config = Config::default();
    let cloned = config.clone();
    assert_eq!(config.human.checks, cloned.human.checks);
}

#[test]
fn test_config_debug() {
    let config = Config::default();
    let debug_str = format!("{:?}", config);
    assert!(debug_str.contains("Config"));
}

#[test]
fn test_check_config_from_command() {
    let check = CheckConfig::from_command("cargo test".to_string());
    assert_eq!(check.run, "cargo test");
    assert_eq!(check.description, "cargo test");
    assert!(check.enabled_if.is_none());
    assert!(check.env.is_empty());
}
