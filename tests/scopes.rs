use collaborator_audit::scopes::has_required_scopes;

#[test]
fn scopes_both_present() {
    assert!(has_required_scopes("repo,read:org"));
    assert!(has_required_scopes("read:org repo"));
    assert!(has_required_scopes(" repo , gist,read:org "));
    assert!(has_required_scopes("repo,\tread:org\t"));
}

#[test]
fn scopes_missing_or_partial() {
    assert!(!has_required_scopes(""));
    assert!(!has_required_scopes("repo"));
    assert!(!has_required_scopes("read:org"));
    assert!(!has_required_scopes("public_repo,read:org"));
    assert!(!has_required_scopes("repo,admin:org"));
    assert!(!has_required_scopes("repo;read:org"));
}
