use agent_precommit::checks::precommit::{is_installed, PRE_COMMIT_CONFIG};

#[test]
fn test_pre_commit_config_constant() {
    assert_eq!(PRE_COMMIT_CONFIG, ".pre-commit-config.yaml");
}

#[test]
fn test_is_installed_returns_bool() {
    // This test just verifies the function runs without error
    // Result depends on whether pre-commit is installed on the system
    let _ = is_installed();
}
