use collaborator_audit::guard::{csrf_verdict, removal_path, requires_csrf, trim_text, CsrfVerdict};

#[test]
fn state_changing_methods_need_token() {
    assert!(requires_csrf("POST"));
    assert!(requires_csrf("PUT"));
    assert!(requires_csrf("PATCH"));
    assert!(requires_csrf("DELETE"));
    assert!(!requires_csrf("GET"));
    assert!(!requires_csrf("HEAD"));
    assert!(!requires_csrf("post"));
}

#[test]
fn csrf_verdicts() {
    let token = "abc123".to_string();
    assert_eq!(csrf_verdict("GET", None, None), CsrfVerdict::Pass);
    assert_eq!(csrf_verdict("POST", Some("abc123"), None), CsrfVerdict::Unauthenticated);
    assert_eq!(csrf_verdict("POST", Some(" abc123 "), Some(&token)), CsrfVerdict::Pass);
    assert_eq!(csrf_verdict("POST", Some("abc"), Some(&token)), CsrfVerdict::Rejected);
    assert_eq!(csrf_verdict("DELETE", None, Some(&token)), CsrfVerdict::Rejected);
}

#[test]
fn trimming() {
    assert_eq!(trim_text("  a b \t"), "a b");
    assert_eq!(trim_text("   "), "");
    assert_eq!(trim_text("x"), "x");
}

#[test]
fn removal_paths() {
    assert!(removal_path("/remove"));
    assert!(removal_path("/remove/items"));
    assert!(!removal_path("/dashboard"));
    assert!(!removal_path("/rem"));
}
