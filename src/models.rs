use vstd::prelude::*;

verus! {

/// What a signed-in browser session carries.
#[derive(Debug, Clone, PartialEq, Eq)]
pub struct SessionData {
    pub access_token: String,
    pub user_login: String,
    pub csrf_token: String,
}

/// Login of the account that owns a repository.
#[derive(Debug, Clone, PartialEq, Eq)]
pub struct Owner {
    pub login: String,
}

/// A repository as listed by the platform.
#[derive(Debug, Clone, PartialEq, Eq)]
pub struct Repository {
    pub id: u64,
    pub name: String,
    pub owner: Owner,
    pub private: bool,
    pub archived: bool,
    pub fork: bool,
}

/// The permission flags attached to a collaborator entry.
#[derive(Debug, Clone, PartialEq, Eq)]
pub struct Permissions {
    pub admin: bool,
    pub push: bool,
    pub pull: bool,
    pub maintain: bool,
    pub triage: bool,
}

/// One collaborator of a repository.
#[derive(Debug, Clone, PartialEq, Eq)]
pub struct Collaborator {
    pub login: String,
    pub id: u64,
    pub permissions: Permissions,
    pub role_name: Option<String>,
}

/// The label shown for a permission bundle: the first set flag in the order
/// admin, maintain, write, triage; read otherwise.
pub open spec fn label_of(p: Permissions) -> Seq<char> {
    if p.admin {
        "admin"@
    } else if p.maintain {
        "maintain"@
    } else if p.push {
        "write"@
    } else if p.triage {
        "triage"@
    } else {
        "read"@
    }
}

impl Collaborator {
    /// The label of this collaborator's strongest permission.
    pub fn permission_label(&self) -> (r: &'static str)
        ensures
            r@ == label_of(self.permissions),
    {
        if self.permissions.admin {
            "admin"
        } else if self.permissions.maintain {
            "maintain"
        } else if self.permissions.push {
            "write"
        } else if self.permissions.triage {
            "triage"
        } else {
            "read"
        }
    }
}

/// A repository with its collaborators (the viewer left out) and whether the
/// viewer may remove them.
#[derive(Debug, Clone, PartialEq, Eq)]
pub struct RepoWithCollaborators {
    pub repo: Repository,
    pub collaborators: Vec<Collaborator>,
    pub can_remove: bool,
}

/// The query of the OAuth redirect back to this service.
#[derive(Debug, Clone, PartialEq, Eq)]
pub struct OAuthCallbackQuery {
    pub code: Option<String>,
    pub state: Option<String>,
    pub error: Option<String>,
    pub error_description: Option<String>,
}

/// A batch of removals asked for by the viewer.
#[derive(Debug, Clone, PartialEq, Eq)]
pub struct RemoveRequest {
    pub items: Vec<RemoveItem>,
}

/// One collaborator to remove from one of the viewer's repositories.
#[derive(Debug, Clone, PartialEq, Eq)]
pub struct RemoveItem {
    pub repo: String,
    pub username: String,
}

/// A removal that went through.
#[derive(Debug, Clone, PartialEq, Eq)]
pub struct RemoveSuccess {
    pub repo: String,
    pub username: String,
}

/// A removal that did not go through, and why.
#[derive(Debug, Clone, PartialEq, Eq)]
pub struct RemoveFailure {
    pub repo: String,
    pub username: String,
    pub reason: String,
}

/// The outcome of a removal batch.
#[derive(Debug, Clone, PartialEq, Eq)]
pub struct RemoveResponse {
    pub success: Vec<RemoveSuccess>,
    pub failed: Vec<RemoveFailure>,
}

/// The answer of the OAuth token exchange.
#[derive(Debug, Clone, PartialEq, Eq)]
pub struct GitHubAccessTokenResponse {
    pub access_token: Option<String>,
    pub scope: Option<String>,
    pub token_type: Option<String>,
    pub error: Option<String>,
    pub error_description: Option<String>,
}

/// An account of the platform.
#[derive(Debug, Clone, PartialEq, Eq)]
pub struct GitHubUser {
    pub login: String,
}

/// One account's effective permission on one repository.
#[derive(Debug, Clone, PartialEq, Eq)]
pub struct CollaboratorPermission {
    pub permission: String,
    pub role_name: Option<String>,
    pub user: GitHubUser,
}

/// The dashboard's query: which repositories to leave out.
#[derive(Debug, Clone, PartialEq, Eq)]
pub struct DashboardQuery {
    pub ignore_forks: bool,
    pub ignore_archived: bool,
}

/// Which repositories the listing leaves out.
#[derive(Debug, Clone, Copy, PartialEq, Eq)]
pub struct RepoFilterOptions {
    pub ignore_forks: bool,
    pub ignore_archived: bool,
}

impl From<DashboardQuery> for RepoFilterOptions {
    fn from(value: DashboardQuery) -> (r: Self)
        ensures
            r.ignore_forks == value.ignore_forks,
            r.ignore_archived == value.ignore_archived,
    {
        RepoFilterOptions { ignore_forks: value.ignore_forks, ignore_archived: value.ignore_archived }
    }
}

impl vstd::std_specs::convert::FromSpecImpl<DashboardQuery> for RepoFilterOptions {
    open spec fn obeys_from_spec() -> bool {
        true
    }

    open spec fn from_spec(v: DashboardQuery) -> Self {
        RepoFilterOptions { ignore_forks: v.ignore_forks, ignore_archived: v.ignore_archived }
    }
}

/// Whether the listing keeps `repo` under `options`.
pub open spec fn keeps(options: RepoFilterOptions, repo: Repository) -> bool {
    !(options.ignore_forks && repo.fork || options.ignore_archived && repo.archived)
}

impl RepoFilterOptions {
    /// Whether a repository passes these filters.
    pub fn keeps_repo(&self, repo: &Repository) -> (r: bool)
        ensures
            r == keeps(*self, *repo),
    {
        !(self.ignore_forks && repo.fork || self.ignore_archived && repo.archived)
    }
}

} // verus!
