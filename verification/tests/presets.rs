use agent_precommit::presets::{available, description, is_valid};

#[test]
fn test_available() {
    assert!(!available().is_empty());
    assert!(available().contains(&"python"));
    assert!(available().contains(&"rust"));
}

#[test]
fn test_is_valid() {
    assert!(is_valid("python"));
    assert!(is_valid("node"));
    assert!(!is_valid("invalid"));
}

#[test]
fn test_description() {
    assert!(!description("python").is_empty());
    assert!(!description("rust").is_empty());
}
