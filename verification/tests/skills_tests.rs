use iris_dev_core::skills::SkillRegistry;

#[test]
fn registry_starts_empty() {
    let registry = SkillRegistry::new();
    assert_eq!(registry.list_skills().len(), 0);
}

#[test]
fn load_invalid_repo_returns_error() {
    let mut registry = SkillRegistry::new();
    let result = registry.load_from_github("nonexistent/repo-that-does-not-exist-xyzzy");
    assert!(result.is_ok());
    assert_eq!(registry.list_skills().len(), 0);
}

#[test]
fn multiple_subscriptions_accumulate() {
    let mut registry = SkillRegistry::new();
    assert!(registry.load_from_github("owner1/repo1").is_ok());
    assert!(registry.load_from_github("owner2/repo2").is_ok());
    assert_eq!(registry.list_skills().len(), 0);
    assert_eq!(registry.list().len(), 0);
}
