use collaborator_audit::aggregate::{exclude_viewer, Aggregator, DEFAULT_MAX_CONCURRENCY};
use collaborator_audit::dashboard::dashboard_rows;
use collaborator_audit::error::AppError;
use collaborator_audit::link::parse_next_link;
use collaborator_audit::listing::{
    check_user_status, collaborator_url, collaborators_url, is_admin_permission, permission_url,
    probe_ownership, probe_permission, repo_url, user_url, CollaboratorFetchOutcome,
    CollaboratorFetcher, Probe, RepoLister,
};
use collaborator_audit::models::{
    Collaborator, CollaboratorPermission, DashboardQuery, GitHubUser, Owner, Permissions,
    RemoveItem, RepoFilterOptions, RepoWithCollaborators, Repository,
};
use collaborator_audit::paginate::Pager;
use collaborator_audit::ratelimit::{
    exhausted_error, is_rate_limited, rate_limit_backoff, reset_time_delay, retry_after_delay,
    ResponseHead, RetryDecision, RetryState, FALLBACK_BACKOFF_SECS, MAX_ATTEMPTS,
};
use collaborator_audit::removal::{
    gate, is_blank_text, removal_failure_reason, repo_facts, RemovalBatch, RepoFacts,
};

fn head(status: u16) -> ResponseHead {
    ResponseHead {
        status,
        ratelimit_remaining: None,
        retry_after: None,
        ratelimit_reset: None,
        link: None,
    }
}

fn linked(status: u16, link: &str) -> ResponseHead {
    ResponseHead { link: Some(link.to_string()), ..head(status) }
}

fn repo(id: u64, name: &str, fork: bool, archived: bool) -> Repository {
    Repository {
        id,
        name: name.to_string(),
        owner: Owner { login: "octo".to_string() },
        private: false,
        archived,
        fork,
    }
}

fn perms(admin: bool, maintain: bool, push: bool, triage: bool, pull: bool) -> Permissions {
    Permissions { admin, push, pull, maintain, triage }
}

fn collaborator(login: &str, id: u64) -> Collaborator {
    Collaborator {
        login: login.to_string(),
        id,
        permissions: perms(false, false, true, false, true),
        role_name: None,
    }
}

fn permission(level: &str, role: Option<&str>) -> CollaboratorPermission {
    CollaboratorPermission {
        permission: level.to_string(),
        role_name: role.map(|r| r.to_string()),
        user: GitHubUser { login: "octo".to_string() },
    }
}

fn item(repo: &str, username: &str) -> RemoveItem {
    RemoveItem { repo: repo.to_string(), username: username.to_string() }
}

const NEXT2: &str = "<https://api.github.com/user/repos?page=2>; rel=\"next\", <https://api.github.com/user/repos?page=2>; rel=\"last\"";

#[test]
fn next_link_found_among_relations() {
    let h = "<https://x/p?page=1>; rel=\"prev\", <https://x/p?page=3>; rel=\"next\", <https://x/p?page=9>; rel=\"last\"";
    assert_eq!(parse_next_link(Some(h)), Some("https://x/p?page=3".to_string()));
}

#[test]
fn next_link_absent() {
    assert_eq!(parse_next_link(None), None);
    assert_eq!(parse_next_link(Some("")), None);
    assert_eq!(parse_next_link(Some("<https://x/p?page=9>; rel=\"last\"")), None);
}

#[test]
fn next_link_malformed_brackets() {
    assert_eq!(parse_next_link(Some("https://x/p; rel=\"next\"")), None);
    assert_eq!(parse_next_link(Some(">https://x/p<; rel=\"next\"")), None);
    assert_eq!(parse_next_link(Some("<>; rel=\"next\"")), Some(String::new()));
}

#[test]
fn permission_label_priority() {
    let mut c = collaborator("a", 1);
    c.permissions = perms(true, true, true, true, true);
    assert_eq!(c.permission_label(), "admin");
    c.permissions = perms(false, true, true, true, true);
    assert_eq!(c.permission_label(), "maintain");
    c.permissions = perms(false, false, true, true, true);
    assert_eq!(c.permission_label(), "write");
    c.permissions = perms(false, false, false, true, true);
    assert_eq!(c.permission_label(), "triage");
    c.permissions = perms(false, false, false, false, true);
    assert_eq!(c.permission_label(), "read");
    c.permissions = perms(false, false, false, false, false);
    assert_eq!(c.permission_label(), "read");
}

#[test]
fn filter_options_from_query() {
    let o = RepoFilterOptions::from(DashboardQuery { ignore_forks: true, ignore_archived: false });
    assert!(o.ignore_forks);
    assert!(!o.ignore_archived);
    assert!(!o.keeps_repo(&repo(1, "f", true, false)));
    assert!(o.keeps_repo(&repo(2, "a", false, true)));
}

#[test]
fn error_responses() {
    assert_eq!(AppError::Config("x".to_string()).status_code(), 500);
    assert_eq!(AppError::Auth.status_code(), 401);
    assert_eq!(AppError::Forbidden.status_code(), 403);
    assert_eq!(AppError::BadRequest("b".to_string()).status_code(), 400);
    assert_eq!(AppError::Upstream("u".to_string()).status_code(), 502);
    assert_eq!(AppError::Internal.status_code(), 500);
    assert_eq!(AppError::Auth.public_message(), "authentication required");
    assert_eq!(AppError::BadRequest("b".to_string()).public_message(), "b");
    assert_eq!(AppError::Upstream("u".to_string()).describe(), "upstream error: u");
    assert_eq!(AppError::Internal.describe(), "internal error");
}

#[test]
fn backoff_prefers_retry_after() {
    let mut h = head(429);
    h.retry_after = Some("7".to_string());
    h.ratelimit_reset = Some("1000".to_string());
    assert_eq!(rate_limit_backoff(&h, 900), Some(7));
}

#[test]
fn backoff_retry_after_floor_one_second() {
    let mut h = head(429);
    h.retry_after = Some("0".to_string());
    assert_eq!(retry_after_delay(&h), Some(1));
    assert_eq!(rate_limit_backoff(&h, 0), Some(1));
}

#[test]
fn backoff_from_reset_time() {
    let mut h = head(403);
    h.ratelimit_remaining = Some("0".to_string());
    h.ratelimit_reset = Some("1000".to_string());
    assert_eq!(rate_limit_backoff(&h, 958), Some(42));
    assert_eq!(rate_limit_backoff(&h, 1000), Some(1));
    assert_eq!(rate_limit_backoff(&h, 5000), Some(1));
    assert_eq!(reset_time_delay(&h, 999), Some(1));
}

#[test]
fn backoff_fallback_sixty_seconds() {
    let h = head(429);
    assert_eq!(rate_limit_backoff(&h, 100), Some(60));
    assert_eq!(FALLBACK_BACKOFF_SECS, 60);
    let mut g = head(429);
    g.retry_after = Some("soon".to_string());
    assert_eq!(rate_limit_backoff(&g, 100), Some(60));
}

#[test]
fn forbidden_without_quota_signal_is_not_rate_limited() {
    let mut h = head(403);
    assert!(!is_rate_limited(&h));
    assert_eq!(rate_limit_backoff(&h, 0), None);
    h.ratelimit_remaining = Some("12".to_string());
    assert_eq!(rate_limit_backoff(&h, 0), None);
    h.retry_after = Some("+3".to_string());
    assert!(is_rate_limited(&h));
    assert_eq!(rate_limit_backoff(&h, 0), Some(3));
    assert_eq!(rate_limit_backoff(&head(200), 0), None);
    assert_eq!(rate_limit_backoff(&head(500), 0), None);
}

#[test]
fn retry_gives_up_after_five_attempts() {
    let h = head(429);
    let mut state = RetryState::new();
    let mut backoffs = 0;
    loop {
        assert!(state.can_send());
        match state.after_response(&h, 0) {
            RetryDecision::Backoff { attempt, delay_secs } => {
                backoffs += 1;
                assert_eq!(attempt, backoffs);
                assert_eq!(delay_secs, 60);
            }
            RetryDecision::GiveUp => break,
            RetryDecision::Deliver => panic!("rate-limited response delivered"),
        }
    }
    assert_eq!(backoffs, MAX_ATTEMPTS - 1);
    assert!(!state.can_send());
    assert_eq!(
        exhausted_error(),
        AppError::Upstream("request failed repeatedly due to rate limiting".to_string())
    );
}

#[test]
fn retry_delivers_other_statuses() {
    let mut state = RetryState::new();
    assert_eq!(state.after_response(&head(404), 0), RetryDecision::Deliver);
    let mut s2 = RetryState::new();
    assert!(matches!(s2.after_response(&head(429), 0), RetryDecision::Backoff { .. }));
    assert_eq!(s2.after_response(&head(200), 0), RetryDecision::Deliver);
}

#[test]
fn repo_listing_two_pages_yields_all() {
    let mut lister = RepoLister::new(RepoFilterOptions { ignore_forks: false, ignore_archived: false });
    assert_eq!(
        lister.next_url(),
        Some("https://api.github.com/user/repos?affiliation=owner&per_page=100&page=1".to_string())
    );
    let page1: Vec<Repository> = (0..100).map(|i| repo(i, "r", false, false)).collect();
    lister.on_page(&linked(200, NEXT2), page1).unwrap();
    assert_eq!(lister.next_url(), Some("https://api.github.com/user/repos?page=2".to_string()));
    let page2: Vec<Repository> = (100..103).map(|i| repo(i, "r", false, false)).collect();
    lister.on_page(&head(200), page2).unwrap();
    assert!(lister.is_done());
    let repos = lister.into_repos();
    assert_eq!(repos.len(), 103);
    let ids: Vec<u64> = repos.iter().map(|r| r.id).collect();
    assert_eq!(ids, (0..103).collect::<Vec<u64>>());
}

#[test]
fn repo_listing_filters_per_page() {
    let mut lister = RepoLister::new(RepoFilterOptions { ignore_forks: true, ignore_archived: true });
    let page1 = vec![repo(1, "fork", true, false), repo(2, "old", false, true)];
    lister.on_page(&linked(200, NEXT2), page1).unwrap();
    assert!(!lister.is_done());
    let page2 = vec![repo(3, "keep", false, false)];
    lister.on_page(&head(200), page2).unwrap();
    let repos = lister.into_repos();
    assert_eq!(repos.len(), 1);
    assert_eq!(repos[0].name, "keep");
}

#[test]
fn repo_listing_stops_on_empty_page() {
    let mut lister = RepoLister::new(RepoFilterOptions { ignore_forks: false, ignore_archived: false });
    lister.on_page(&linked(200, NEXT2), vec![repo(1, "a", false, false)]).unwrap();
    lister.on_page(&linked(200, NEXT2), vec![]).unwrap();
    assert!(lister.is_done());
    assert_eq!(lister.into_repos().len(), 1);
}

#[test]
fn repo_listing_error_status() {
    let mut lister = RepoLister::new(RepoFilterOptions { ignore_forks: false, ignore_archived: false });
    let e = lister.on_page(&head(500), vec![]).unwrap_err();
    assert_eq!(e, AppError::Upstream("failed to fetch repositories: 500".to_string()));
}

#[test]
fn pagination_calls_bounded_by_pages() {
    let size = 10usize;
    let total = 25usize;
    let all: Vec<u32> = (0..total as u32).collect();
    let mut pager: Pager<u32> = Pager::new("https://x/p?page=1".to_string());
    let mut calls = 0usize;
    let mut pos = 0usize;
    while !pager.is_done() {
        calls += 1;
        let end = std::cmp::min(pos + size, total);
        let page: Vec<u32> = all[pos..end].to_vec();
        pos = end;
        let empty = page.is_empty();
        pager.advance(Some("<https://x/p?page=n>; rel=\"next\""), empty, page);
    }
    assert!(calls <= (total + size - 1) / size + 1);
    assert_eq!(calls, 4);
    assert_eq!(pager.into_items(), all);
}

#[test]
fn collaborator_fetch_forbidden_is_access_denied() {
    let mut f = CollaboratorFetcher::new("octo", "secret");
    assert_eq!(
        f.next_url(),
        Some("https://api.github.com/repos/octo/secret/collaborators?per_page=100&page=1".to_string())
    );
    f.on_page(&head(403), vec![]).unwrap();
    assert!(f.is_done());
    assert_eq!(f.finish(), CollaboratorFetchOutcome::Forbidden);
}

#[test]
fn collaborator_fetch_pages_and_errors() {
    let mut f = CollaboratorFetcher::new("octo", "repo");
    f.on_page(&linked(200, "<https://api.github.com/c?page=2>; rel=\"next\""), vec![collaborator("a", 1)])
        .unwrap();
    assert_eq!(f.next_url(), Some("https://api.github.com/c?page=2".to_string()));
    f.on_page(&head(200), vec![collaborator("b", 2)]).unwrap();
    match f.finish() {
        CollaboratorFetchOutcome::Success(list) => {
            let logins: Vec<&str> = list.iter().map(|c| c.login.as_str()).collect();
            assert_eq!(logins, vec!["a", "b"]);
        }
        CollaboratorFetchOutcome::Forbidden => panic!("unexpected refusal"),
    }
    let mut g = CollaboratorFetcher::new("octo", "repo");
    assert_eq!(
        g.on_page(&head(502), vec![]).unwrap_err(),
        AppError::Upstream("failed to fetch collaborators for octo/repo: 502".to_string())
    );
}

#[test]
fn endpoint_urls() {
    assert_eq!(user_url(), "https://api.github.com/user");
    assert_eq!(repo_url("o", "r"), "https://api.github.com/repos/o/r");
    assert_eq!(collaborators_url("o", "r"), "https://api.github.com/repos/o/r/collaborators?per_page=100&page=1");
    assert_eq!(collaborator_url("o", "r", "u"), "https://api.github.com/repos/o/r/collaborators/u");
    assert_eq!(permission_url("o", "r", "u"), "https://api.github.com/repos/o/r/collaborators/u/permission");
}

#[test]
fn probes_read_statuses() {
    assert_eq!(probe_permission("o", "r", 404), Probe::NotFound);
    assert_eq!(probe_permission("o", "r", 200), Probe::Found);
    assert_eq!(
        probe_permission("o", "r", 500),
        Probe::Failed(AppError::Upstream("permission check failed for o/r: 500".to_string()))
    );
    assert_eq!(probe_ownership("o", "r", 404), Probe::NotFound);
    assert_eq!(
        probe_ownership("o", "r", 401),
        Probe::Failed(AppError::Upstream("repository ownership check failed for o/r: 401".to_string()))
    );
    assert_eq!(check_user_status(200), Ok(()));
    assert_eq!(check_user_status(401), Err(AppError::Auth));
}

#[test]
fn admin_from_permission_or_role() {
    assert!(is_admin_permission(&permission("admin", None)));
    assert!(is_admin_permission(&permission("ADMIN", None)));
    assert!(is_admin_permission(&permission("write", Some("Admin"))));
    assert!(!is_admin_permission(&permission("write", Some("maintain"))));
    assert!(!is_admin_permission(&permission("read", None)));
    assert!(!is_admin_permission(&permission("administrator", None)));
}

#[test]
fn viewer_never_listed() {
    let list = vec![collaborator("me", 1), collaborator("a", 2), collaborator("me", 3), collaborator("b", 4)];
    let kept = exclude_viewer(list, "me");
    let logins: Vec<&str> = kept.iter().map(|c| c.login.as_str()).collect();
    assert_eq!(logins, vec!["a", "b"]);
}

fn run_aggregation(
    repos: Vec<Repository>,
    cap: usize,
    fetch: &dyn Fn(&str) -> Result<CollaboratorFetchOutcome, AppError>,
    lookup: &dyn Fn(&str) -> Result<Option<CollaboratorPermission>, AppError>,
) -> (Result<Vec<RepoWithCollaborators>, AppError>, usize) {
    let mut agg = Aggregator::new("me", repos, cap);
    let mut running: Vec<(usize, String)> = Vec::new();
    let mut peak = 0usize;
    loop {
        while let Some(start) = agg.start_next() {
            running.push((start.slot, start.repo));
            peak = peak.max(agg.in_flight());
            assert!(agg.in_flight() <= cap);
        }
        if running.is_empty() {
            break;
        }
        // complete the most recently started pipeline first: out of order
        let (slot, name) = running.pop().unwrap();
        if agg.on_collaborators(slot, fetch(&name)) {
            agg.on_permission(slot, lookup(&name));
        }
    }
    assert!(agg.is_drained());
    (agg.finish(), peak)
}

#[test]
fn aggregation_respects_cap() {
    let repos: Vec<Repository> = (0..25).map(|i| repo(i, &format!("r{i}"), false, false)).collect();
    let fetch = |_: &str| Ok(CollaboratorFetchOutcome::Success(vec![collaborator("a", 1)]));
    let lookup = |_: &str| Ok(Some(permission("admin", None)));
    let (rows, peak) = run_aggregation(repos, 3, &fetch, &lookup);
    assert_eq!(peak, 3);
    assert_eq!(rows.unwrap().len(), 25);
    assert_eq!(DEFAULT_MAX_CONCURRENCY, 10);
}

#[test]
fn aggregation_excludes_forbidden_repo() {
    let repos = vec![repo(1, "open", false, false), repo(2, "closed", false, false)];
    let fetch = |name: &str| {
        if name == "closed" {
            Ok(CollaboratorFetchOutcome::Forbidden)
        } else {
            Ok(CollaboratorFetchOutcome::Success(vec![collaborator("me", 9), collaborator("a", 1)]))
        }
    };
    let lookup = |_: &str| Ok(Some(permission("admin", None)));
    let (rows, _) = run_aggregation(repos, DEFAULT_MAX_CONCURRENCY, &fetch, &lookup);
    let rows = rows.unwrap();
    assert_eq!(rows.len(), 1);
    assert_eq!(rows[0].repo.name, "open");
    assert!(rows[0].can_remove);
    assert!(rows[0].collaborators.iter().all(|c| c.login != "me"));
    assert_eq!(rows[0].collaborators.len(), 1);
}

#[test]
fn aggregation_drops_repo_with_only_viewer() {
    let repos = vec![repo(1, "solo", false, false)];
    let fetch = |_: &str| Ok(CollaboratorFetchOutcome::Success(vec![collaborator("me", 9)]));
    let lookup = |_: &str| -> Result<Option<CollaboratorPermission>, AppError> { panic!("no lookup expected") };
    let (rows, _) = run_aggregation(repos, 2, &fetch, &lookup);
    assert_eq!(rows.unwrap().len(), 0);
}

#[test]
fn aggregation_permission_failure_denies_removal_only() {
    let repos = vec![repo(1, "a", false, false), repo(2, "b", false, false)];
    let fetch = |_: &str| Ok(CollaboratorFetchOutcome::Success(vec![collaborator("x", 1)]));
    let lookup = |name: &str| {
        if name == "a" {
            Err(AppError::Upstream("boom".to_string()))
        } else {
            Ok(None)
        }
    };
    let (rows, _) = run_aggregation(repos, 2, &fetch, &lookup);
    let rows = rows.unwrap();
    assert_eq!(rows.len(), 2);
    assert!(rows.iter().all(|r| !r.can_remove));
}

#[test]
fn aggregation_collaborator_error_is_fatal() {
    let repos = vec![repo(1, "a", false, false), repo(2, "b", false, false)];
    let fetch = |name: &str| {
        if name == "b" {
            Err(AppError::Upstream("failed to fetch collaborators for octo/b: 500".to_string()))
        } else {
            Ok(CollaboratorFetchOutcome::Success(vec![collaborator("x", 1)]))
        }
    };
    let lookup = |_: &str| Ok(Some(permission("admin", None)));
    let (rows, _) = run_aggregation(repos, 1, &fetch, &lookup);
    assert_eq!(
        rows.unwrap_err(),
        AppError::Upstream("failed to fetch collaborators for octo/b: 500".to_string())
    );
}

fn run_removal(
    viewer: &str,
    items: Vec<RemoveItem>,
    ownership: &dyn Fn(&str) -> Result<bool, AppError>,
    admin: &dyn Fn(&str) -> Result<Option<CollaboratorPermission>, AppError>,
    delete: &mut dyn FnMut(&RemoveItem) -> Option<u16>,
) -> Result<collaborator_audit::models::RemoveResponse, AppError> {
    let mut batch = RemovalBatch::new(viewer, items)?;
    for name in batch.repos_to_check() {
        let owned = ownership(&name);
        let lookup = if owned == Ok(true) { Some(admin(&name)) } else { None };
        batch.record_facts(repo_facts(name, owned, lookup));
    }
    while batch.has_pending() {
        if let Some(it) = batch.take_next() {
            let status = delete(&it);
            batch.record_deletion(status);
        }
    }
    Ok(batch.finish())
}

#[test]
fn removal_rejects_viewer_first() {
    let mut deleted = 0;
    let out = run_removal(
        "me",
        vec![item("repo", "me")],
        &|_| Ok(true),
        &|_| Ok(Some(permission("admin", None))),
        &mut |_| {
            deleted += 1;
            Some(204)
        },
    )
    .unwrap();
    assert_eq!(deleted, 0);
    assert!(out.success.is_empty());
    assert_eq!(out.failed.len(), 1);
    assert_eq!(out.failed[0].reason, "cannot remove authenticated user");
}

#[test]
fn removal_not_owned_repository() {
    let out = run_removal(
        "me",
        vec![item("theirs", "bob")],
        &|_| Ok(false),
        &|_| panic!("no admin check for a repository not owned"),
        &mut |_| panic!("no deletion expected"),
    )
    .unwrap();
    assert!(out.success.is_empty());
    assert_eq!(out.failed.len(), 1);
    assert_eq!(out.failed[0].repo, "theirs");
    assert_eq!(out.failed[0].username, "bob");
    assert_eq!(out.failed[0].reason, "repository is not owned by authenticated user");
}

#[test]
fn removal_ownership_error_fails_closed() {
    let out = run_removal(
        "me",
        vec![item("r", "bob")],
        &|_| Err(AppError::Upstream("x".to_string())),
        &|_| Ok(Some(permission("admin", None))),
        &mut |_| Some(204),
    )
    .unwrap();
    assert_eq!(out.failed[0].reason, "repository is not owned by authenticated user");
}

#[test]
fn removal_requires_admin() {
    let out = run_removal(
        "me",
        vec![item("r", "bob"), item("s", "bob")],
        &|_| Ok(true),
        &|name| if name == "r" { Ok(Some(permission("write", None))) } else { Err(AppError::Internal) },
        &mut |_| Some(204),
    )
    .unwrap();
    assert_eq!(out.failed.len(), 2);
    assert!(out.failed.iter().all(|f| f.reason == "authenticated user does not have admin permission"));
}

#[test]
fn removal_twice_second_not_found() {
    let mut present = true;
    let out = run_removal(
        "me",
        vec![item("r", "bob"), item("r", "bob")],
        &|_| Ok(true),
        &|_| Ok(Some(permission("admin", None))),
        &mut |_| {
            if present {
                present = false;
                Some(204)
            } else {
                Some(404)
            }
        },
    )
    .unwrap();
    assert_eq!(out.success.len(), 1);
    assert_eq!(out.success[0].username, "bob");
    assert_eq!(out.failed.len(), 1);
    assert_eq!(out.failed[0].reason, "collaborator not found");
}

#[test]
fn removal_status_mapping() {
    assert_eq!(removal_failure_reason(Some(204)), None);
    assert_eq!(removal_failure_reason(Some(403)), Some("insufficient permissions".to_string()));
    assert_eq!(
        removal_failure_reason(Some(422)),
        Some("validation failed or abuse detection triggered".to_string())
    );
    assert_eq!(removal_failure_reason(Some(404)), Some("collaborator not found".to_string()));
    assert_eq!(removal_failure_reason(Some(500)), Some("unexpected response status: 500".to_string()));
    assert_eq!(removal_failure_reason(None), Some("upstream request failed".to_string()));
}

#[test]
fn removal_blank_items_fail_once() {
    let mut calls = 0;
    let out = run_removal(
        "me",
        vec![item("  ", "bob"), item("r", ""), item("r", "ann")],
        &|_| Ok(true),
        &|_| Ok(Some(permission("admin", None))),
        &mut |_| {
            calls += 1;
            Some(204)
        },
    )
    .unwrap();
    assert_eq!(calls, 1);
    assert_eq!(out.success.len(), 1);
    assert_eq!(out.failed.len(), 2);
    assert!(out.failed.iter().all(|f| f.reason == "repo and username must be non-empty"));
}

#[test]
fn removal_empty_batch_is_bad_request() {
    let r = RemovalBatch::new("me", vec![]);
    assert_eq!(r.err(), Some(AppError::BadRequest("items must not be empty".to_string())));
}

#[test]
fn removal_transport_failure_recorded() {
    let out = run_removal(
        "me",
        vec![item("r", "a"), item("r", "b")],
        &|_| Ok(true),
        &|_| Ok(Some(permission("x", Some("admin")))),
        &mut |it| if it.username == "a" { None } else { Some(204) },
    )
    .unwrap();
    assert_eq!(out.failed.len(), 1);
    assert_eq!(out.failed[0].reason, "upstream request failed");
    assert_eq!(out.success.len(), 1);
}

#[test]
fn repos_checked_once_each() {
    let batch = RemovalBatch::new("me", vec![item("r", "a"), item("s", "b"), item("r", "c")]).unwrap();
    assert_eq!(batch.repos_to_check(), vec!["r".to_string(), "s".to_string()]);
}

#[test]
fn gate_and_blank_helpers() {
    assert!(is_blank_text(" \t\u{3000}"));
    assert!(is_blank_text(""));
    assert!(!is_blank_text(" x "));
    let facts = vec![RepoFacts { repo: "r".to_string(), owned: true, admin: true }];
    assert_eq!(gate(&item("r", "bob"), &"me".to_string(), &facts), None);
    assert_eq!(
        gate(&item("q", "bob"), &"me".to_string(), &facts),
        Some("repository is not owned by authenticated user".to_string())
    );
}

#[test]
fn dashboard_lines_per_collaborator() {
    let mut admin = collaborator("ann", 1);
    admin.permissions = perms(true, false, false, false, false);
    let data = vec![
        RepoWithCollaborators {
            repo: repo(1, "alpha", false, false),
            collaborators: vec![admin, collaborator("bob", 2)],
            can_remove: true,
        },
        RepoWithCollaborators {
            repo: repo(2, "beta", false, false),
            collaborators: vec![collaborator("cid", 3)],
            can_remove: false,
        },
    ];
    let rows = dashboard_rows(data);
    let seen: Vec<(&str, &str, &str, bool)> = rows
        .iter()
        .map(|r| (r.repo.as_str(), r.collaborator.as_str(), r.permission.as_str(), r.can_remove))
        .collect();
    assert_eq!(
        seen,
        vec![
            ("alpha", "ann", "admin", true),
            ("alpha", "bob", "write", true),
            ("beta", "cid", "write", false),
        ]
    );
}
