use vstd::prelude::*;

use crate::error::AppError;
use crate::link::opt_str_view;
use crate::models::{keeps, Collaborator, CollaboratorPermission, RepoFilterOptions, Repository};
use crate::paginate::{page_step, Pager};
use crate::ratelimit::ResponseHead;
use crate::status::{failure_message, is_success, status_is_success, upstream_failure};

verus! {

/// The endpoint that names the signed-in account.
pub open spec fn user_url_spec() -> Seq<char> {
    "https://api.github.com/user"@
}

/// The first page of the repositories the signed-in account owns.
pub open spec fn owned_repos_url_spec() -> Seq<char> {
    "https://api.github.com/user/repos?affiliation=owner&per_page=100&page=1"@
}

/// `owner/repo`.
pub open spec fn repo_path(owner: Seq<char>, repo: Seq<char>) -> Seq<char> {
    owner + "/"@ + repo
}

/// The endpoint of one repository.
pub open spec fn repo_url_spec(owner: Seq<char>, repo: Seq<char>) -> Seq<char> {
    "https://api.github.com/repos/"@ + repo_path(owner, repo)
}

/// The first page of a repository's collaborators.
pub open spec fn collaborators_url_spec(owner: Seq<char>, repo: Seq<char>) -> Seq<char> {
    repo_url_spec(owner, repo) + "/collaborators?per_page=100&page=1"@
}

/// The endpoint of one collaborator of a repository.
pub open spec fn collaborator_url_spec(
    owner: Seq<char>,
    repo: Seq<char>,
    username: Seq<char>,
) -> Seq<char> {
    repo_url_spec(owner, repo) + "/collaborators/"@ + username
}

/// The endpoint of an account's effective permission on a repository.
pub open spec fn permission_url_spec(
    owner: Seq<char>,
    repo: Seq<char>,
    username: Seq<char>,
) -> Seq<char> {
    collaborator_url_spec(owner, repo, username) + "/permission"@
}

/// The endpoint that names the signed-in account.
pub fn user_url() -> (r: String)
    ensures
        r@ == user_url_spec(),
{
    "https://api.github.com/user".to_owned()
}

/// The endpoint of one repository.
pub fn repo_url(owner: &str, repo: &str) -> (r: String)
    ensures
        r@ == repo_url_spec(owner@, repo@),
{
    "https://api.github.com/repos/".to_owned().concat(owner).concat("/").concat(repo)
}

/// The first page of a repository's collaborators.
pub fn collaborators_url(owner: &str, repo: &str) -> (r: String)
    ensures
        r@ == collaborators_url_spec(owner@, repo@),
{
    repo_url(owner, repo).concat("/collaborators?per_page=100&page=1")
}

/// The endpoint of one collaborator of a repository.
pub fn collaborator_url(owner: &str, repo: &str, username: &str) -> (r: String)
    ensures
        r@ == collaborator_url_spec(owner@, repo@, username@),
{
    repo_url(owner, repo).concat("/collaborators/").concat(username)
}

/// The endpoint of an account's effective permission on a repository.
pub fn permission_url(owner: &str, repo: &str, username: &str) -> (r: String)
    ensures
        r@ == permission_url_spec(owner@, repo@, username@),
{
    collaborator_url(owner, repo, username).concat("/permission")
}

/// The account lookup: anything but success means the credential was refused.
pub fn check_user_status(status: u16) -> (r: Result<(), AppError>)
    ensures
        is_success(status) ==> r is Ok,
        !is_success(status) ==> r == Err::<(), AppError>(AppError::Auth),
{
    if status_is_success(status) {
        Ok(())
    } else {
        Err(AppError::Auth)
    }
}

/// The repositories of `page` that `options` keeps, in order.
pub open spec fn kept_repos(options: RepoFilterOptions, page: Seq<Repository>) -> Seq<Repository>
    decreases page.len(),
{
    if page.len() == 0 {
        Seq::empty()
    } else {
        let init = kept_repos(options, page.drop_last());
        if keeps(options, page.last()) {
            init.push(page.last())
        } else {
            init
        }
    }
}

/// The repositories of `page` that `options` keeps, in order.
pub fn filter_repos(options: &RepoFilterOptions, page: Vec<Repository>) -> (r: Vec<Repository>)
    ensures
        r@ == kept_repos(*options, page@),
{
    let ghost all = page@;
    let mut out: Vec<Repository> = Vec::new();
    for repo in it: page.into_iter()
        invariant
            it.seq() == all,
            out@ == kept_repos(*options, all.take(it.index() as int)),
    {
        let ghost i = it.index() as int;
        proof {
            assert(all.take(i + 1).drop_last() =~= all.take(i));
            assert(all.take(i + 1).last() == all[i]);
        }
        if options.keeps_repo(&repo) {
            out.push(repo);
        }
    }
    proof {
        assert(all.take(all.len() as int) =~= all);
    }
    out
}

/// The walk over the repositories the signed-in account owns.
pub struct RepoLister {
    pager: Pager<Repository>,
    options: RepoFilterOptions,
}

impl RepoLister {
    /// The repositories gathered so far.
    pub closed spec fn gathered(&self) -> Seq<Repository> {
        self.pager.gathered()
    }

    /// The URL still to fetch, if any.
    pub closed spec fn cursor(&self) -> Option<Seq<char>> {
        self.pager.cursor()
    }

    /// The filters applied.
    pub closed spec fn filters(&self) -> RepoFilterOptions {
        self.options
    }

    /// A walk from the first page, with the given filters.
    pub fn new(options: RepoFilterOptions) -> (r: Self)
        ensures
            r.gathered() == Seq::<Repository>::empty(),
            r.cursor() == Some(owned_repos_url_spec()),
            r.filters() == options,
    {
        let start = "https://api.github.com/user/repos?affiliation=owner&per_page=100&page=1".to_owned();
        RepoLister { pager: Pager::new(start), options }
    }

    /// The URL of the page to fetch next, if the walk goes on.
    pub fn next_url(&self) -> (r: Option<String>)
        ensures
            crate::link::opt_view(r) == self.cursor(),
    {
        self.pager.next_url()
    }

    /// Whether every page has been taken in.
    pub fn is_done(&self) -> (r: bool)
        ensures
            r == (self.cursor() is None),
    {
        self.pager.is_done()
    }

    /// Takes in the response to the current page. A status other than
    /// success ends the listing with an upstream error; otherwise the kept
    /// repositories of the page are appended and the cursor moves on.
    pub fn on_page(&mut self, head: &ResponseHead, page: Vec<Repository>) -> (r: Result<(), AppError>)
        ensures
            final(self).filters() == old(self).filters(),
            is_success(head.status) ==> r is Ok && (final(self).gathered(), final(self).cursor())
                == page_step(
                old(self).gathered(),
                page@.len() == 0,
                kept_repos(old(self).filters(), page@),
                crate::link::opt_view(head.link),
            ),
            !is_success(head.status) ==> (r matches Err(AppError::Upstream(m)) && m@
                == failure_message("failed to fetch repositories"@, head.status)),
    {
        if !status_is_success(head.status) {
            return Err(upstream_failure("failed to fetch repositories".to_owned(), head.status));
        }
        let empty = page.len() == 0;
        let kept = filter_repos(&self.options, page);
        let link = match &head.link {
            Some(l) => Some(l.as_str()),
            None => None,
        };
        assert(opt_str_view(link) == crate::link::opt_view(head.link));
        self.pager.advance(link, empty, kept);
        Ok(())
    }

    /// Ends the walk, handing out the repositories it kept.
    pub fn into_repos(self) -> (r: Vec<Repository>)
        ensures
            r@ == self.gathered(),
    {
        self.pager.into_items()
    }
}

/// The collaborators of one repository, or the sign that the viewer may not
/// list them.
#[derive(Debug, Clone, PartialEq, Eq)]
pub enum CollaboratorFetchOutcome {
    Success(Vec<Collaborator>),
    Forbidden,
}

/// The walk over one repository's collaborators.
pub struct CollaboratorFetcher {
    owner: String,
    repo: String,
    pager: Pager<Collaborator>,
    denied: bool,
}

impl CollaboratorFetcher {
    /// The collaborators gathered so far.
    pub closed spec fn gathered(&self) -> Seq<Collaborator> {
        self.pager.gathered()
    }

    /// The URL still to fetch, if any.
    pub closed spec fn cursor(&self) -> Option<Seq<char>> {
        if self.denied {
            None
        } else {
            self.pager.cursor()
        }
    }

    /// Whether a page was refused.
    pub closed spec fn was_denied(&self) -> bool {
        self.denied
    }

    /// `owner/repo` of the repository walked.
    pub closed spec fn path(&self) -> Seq<char> {
        repo_path(self.owner@, self.repo@)
    }

    /// A walk from the first page of `owner/repo`.
    pub fn new(owner: &str, repo: &str) -> (r: Self)
        ensures
            r.gathered() == Seq::<Collaborator>::empty(),
            r.cursor() == Some(collaborators_url_spec(owner@, repo@)),
            !r.was_denied(),
            r.path() == repo_path(owner@, repo@),
    {
        let start = collaborators_url(owner, repo);
        CollaboratorFetcher {
            owner: owner.to_owned(),
            repo: repo.to_owned(),
            pager: Pager::new(start),
            denied: false,
        }
    }

    /// The URL of the page to fetch next, if the walk goes on.
    pub fn next_url(&self) -> (r: Option<String>)
        ensures
            crate::link::opt_view(r) == self.cursor(),
    {
        if self.denied {
            None
        } else {
            self.pager.next_url()
        }
    }

    /// Whether the walk is over.
    pub fn is_done(&self) -> (r: bool)
        ensures
            r == (self.cursor() is None),
    {
        self.denied || self.pager.is_done()
    }

    /// Takes in the response to the current page. A refusal (403) ends the
    /// walk as denied; another status but success is an upstream error;
    /// otherwise the page's collaborators are appended and the cursor moves on.
    pub fn on_page(&mut self, head: &ResponseHead, page: Vec<Collaborator>) -> (r: Result<(), AppError>)
        requires
            !old(self).was_denied(),
        ensures
            final(self).path() == old(self).path(),
            head.status == 403 ==> r is Ok && final(self).was_denied() && final(self).cursor() is None
                && final(self).gathered() == old(self).gathered(),
            is_success(head.status) ==> r is Ok && !final(self).was_denied() && (
            final(self).gathered(),
            final(self).cursor(),
            ) == page_step(
                old(self).gathered(),
                page@.len() == 0,
                page@,
                crate::link::opt_view(head.link),
            ),
            head.status != 403 && !is_success(head.status) ==> (r matches Err(AppError::Upstream(m))
                && m@ == failure_message(
                "failed to fetch collaborators for "@ + old(self).path(),
                head.status,
            )),
    {
        if head.status == 403 {
            self.denied = true;
            return Ok(());
        }
        if !status_is_success(head.status) {
            let what = "failed to fetch collaborators for ".to_owned().concat(
                self.owner.as_str(),
            ).concat("/").concat(self.repo.as_str());
            return Err(upstream_failure(what, head.status));
        }
        let empty = page.len() == 0;
        let link = match &head.link {
            Some(l) => Some(l.as_str()),
            None => None,
        };
        assert(opt_str_view(link) == crate::link::opt_view(head.link));
        self.pager.advance(link, empty, page);
        Ok(())
    }

    /// Ends the walk: the collaborators gathered, or the refusal.
    pub fn finish(self) -> (r: CollaboratorFetchOutcome)
        ensures
            self.was_denied() ==> r is Forbidden,
            !self.was_denied() ==> (r matches CollaboratorFetchOutcome::Success(v) && v@
                == self.gathered()),
    {
        if self.denied {
            CollaboratorFetchOutcome::Forbidden
        } else {
            CollaboratorFetchOutcome::Success(self.pager.into_items())
        }
    }
}

/// The answer to a lookup that may find nothing.
#[derive(Debug, Clone, PartialEq, Eq)]
pub enum Probe {
    /// 404: there is nothing there.
    NotFound,
    /// Success: the thing exists, and the body describes it.
    Found,
    /// Any other status.
    Failed(AppError),
}

/// Reads the status of a lookup: 404 is an answer, success is an answer,
/// anything else an upstream error described by `what`.
fn probe_status(what: String, status: u16) -> (r: Probe)
    ensures
        status == 404 ==> r is NotFound,
        status != 404 && is_success(status) ==> r is Found,
        status != 404 && !is_success(status) ==> (r matches Probe::Failed(AppError::Upstream(m))
            && m@ == failure_message(what@, status)),
{
    if status == 404 {
        Probe::NotFound
    } else if status_is_success(status) {
        Probe::Found
    } else {
        Probe::Failed(upstream_failure(what, status))
    }
}

/// The status of a permission lookup on `owner/repo`.
pub fn probe_permission(owner: &str, repo: &str, status: u16) -> (r: Probe)
    ensures
        status == 404 ==> r is NotFound,
        is_success(status) ==> r is Found,
        status != 404 && !is_success(status) ==> (r matches Probe::Failed(AppError::Upstream(m))
            && m@ == failure_message(
            "permission check failed for "@ + repo_path(owner@, repo@),
            status,
        )),
{
    let what = "permission check failed for ".to_owned().concat(owner).concat("/").concat(repo);
    probe_status(what, status)
}

/// The status of the existence check of `owner/repo`.
pub fn probe_ownership(owner: &str, repo: &str, status: u16) -> (r: Probe)
    ensures
        status == 404 ==> r is NotFound,
        is_success(status) ==> r is Found,
        status != 404 && !is_success(status) ==> (r matches Probe::Failed(AppError::Upstream(m))
            && m@ == failure_message(
            "repository ownership check failed for "@ + repo_path(owner@, repo@),
            status,
        )),
{
    let what = "repository ownership check failed for ".to_owned().concat(owner).concat("/").concat(
        repo,
    );
    probe_status(what, status)
}

/// Whether two characters are equal once ASCII letters are lowercased.
pub open spec fn same_letter(a: char, b: char) -> bool {
    a == b || ('A' <= a <= 'Z' && (a as int) + 32 == (b as int)) || ('A' <= b <= 'Z' && (b as int)
        + 32 == (a as int))
}

/// Whether two texts are equal once ASCII letters are lowercased.
pub open spec fn same_ignoring_ascii_case(a: Seq<char>, b: Seq<char>) -> bool {
    a.len() == b.len() && forall|i: int| 0 <= i < a.len() ==> same_letter(a[i], b[i])
}

/// Relies on `str::eq_ignore_ascii_case`: equal lengths, and each pair of
/// characters equal once ASCII letters are lowercased.
#[verifier::external_body]
fn eq_ignore_ascii_case(a: &str, b: &str) -> (r: bool)
    ensures
        r == same_ignoring_ascii_case(a@, b@),
{
    a.eq_ignore_ascii_case(b)
}

/// An effective permission is administrative when its permission, or its
/// role name if it has one, reads `admin` in any ASCII case.
pub open spec fn is_admin(p: CollaboratorPermission) -> bool {
    same_ignoring_ascii_case(p.permission@, "admin"@) || (p.role_name matches Some(role)
        && same_ignoring_ascii_case(role@, "admin"@))
}

/// Whether an effective permission is administrative.
pub fn is_admin_permission(permission: &CollaboratorPermission) -> (r: bool)
    ensures
        r == is_admin(*permission),
{
    if eq_ignore_ascii_case(permission.permission.as_str(), "admin") {
        return true;
    }
    match &permission.role_name {
        Some(role) => eq_ignore_ascii_case(role.as_str(), "admin"),
        None => false,
    }
}

/// Whether a permission lookup shows an administrative role; no permission
/// and a failed lookup both count as no.
pub open spec fn grants_admin(lookup: Result<Option<CollaboratorPermission>, AppError>) -> bool {
    lookup matches Ok(Some(p)) && is_admin(p)
}

/// Whether a permission lookup shows an administrative role.
pub fn lookup_grants_admin(lookup: &Result<Option<CollaboratorPermission>, AppError>) -> (r: bool)
    ensures
        r == grants_admin(*lookup),
{
    match lookup {
        Ok(Some(p)) => is_admin_permission(p),
        _ => false,
    }
}

} // verus!
