use agent_precommit::checks::builtin::is_builtin;

#[test]
fn test_is_builtin() {
    assert!(is_builtin("pre-commit"));
    assert!(is_builtin("no-merge-conflicts"));
    assert!(!is_builtin("custom-check"));
}
