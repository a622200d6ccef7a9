use vstd::prelude::*;

use crate::models::{label_of, Collaborator, RepoWithCollaborators};

verus! {

/// One line of the dashboard: a collaborator of a repository.
#[derive(Debug, Clone, PartialEq, Eq)]
pub struct DashboardRow {
    pub repo: String,
    pub collaborator: String,
    pub permission: String,
    pub can_remove: bool,
}

/// What a dashboard line shows.
pub open spec fn row_view(row: DashboardRow) -> (Seq<char>, Seq<char>, Seq<char>, bool) {
    (row.repo@, row.collaborator@, row.permission@, row.can_remove)
}

/// The line for collaborator `c` of the repository row `r`.
pub open spec fn line_of(r: RepoWithCollaborators, c: Collaborator) -> (Seq<char>, Seq<char>, Seq<char>, bool) {
    (r.repo.name@, c.login@, label_of(c.permissions), r.can_remove)
}

/// The lines of one repository row, one per collaborator, in order.
pub open spec fn lines_of_repo(r: RepoWithCollaborators) -> Seq<(Seq<char>, Seq<char>, Seq<char>, bool)> {
    r.collaborators@.map_values(|c: Collaborator| line_of(r, c))
}

/// The lines of all repository rows, repository after repository.
pub open spec fn lines_of(data: Seq<RepoWithCollaborators>) -> Seq<(Seq<char>, Seq<char>, Seq<char>, bool)>
    decreases data.len(),
{
    if data.len() == 0 {
        Seq::empty()
    } else {
        lines_of(data.drop_last()) + lines_of_repo(data.last())
    }
}

/// The dashboard's lines: for each repository row, one line per
/// collaborator with the repository's name, the collaborator's login, the
/// label of the collaborator's permission, and whether removal is offered.
pub fn dashboard_rows(data: Vec<RepoWithCollaborators>) -> (r: Vec<DashboardRow>)
    ensures
        r@.map_values(|row: DashboardRow| row_view(row)) == lines_of(data@),
{
    let ghost all = data@;
    let mut out: Vec<DashboardRow> = Vec::new();
    for repo_row in it: data.into_iter()
        invariant
            it.seq() == all,
            out@.map_values(|row: DashboardRow| row_view(row)) == lines_of(all.take(it.index() as int)),
    {
        let ghost i = it.index() as int;
        let ghost base = out@.map_values(|row: DashboardRow| row_view(row));
        proof {
            assert(all.take(i + 1).drop_last() =~= all.take(i));
            assert(all.take(i + 1).last() == all[i]);
        }
        let ghost cs = repo_row.collaborators@;
        let mut j: usize = 0;
        while j < repo_row.collaborators.len()
            invariant
                j <= cs.len(),
                cs == repo_row.collaborators@,
                out@.map_values(|row: DashboardRow| row_view(row)) == base + lines_of_repo(repo_row).take(j as int),
            decreases cs.len() - j,
        {
            let c = &repo_row.collaborators[j];
            let row = DashboardRow {
                repo: repo_row.repo.name.clone(),
                collaborator: c.login.clone(),
                permission: c.permission_label().to_owned(),
                can_remove: repo_row.can_remove,
            };
            let ghost before = out@;
            out.push(row);
            proof {
                assert(lines_of_repo(repo_row).take(j + 1) =~= lines_of_repo(repo_row).take(j as int).push(line_of(repo_row, cs[j as int])));
                assert(out@.map_values(|row: DashboardRow| row_view(row)) =~= before.map_values(|row: DashboardRow| row_view(row)).push(row_view(out@[before.len() as int])));
            }
            j = j + 1;
        }
        proof {
            assert(lines_of_repo(repo_row).take(cs.len() as int) =~= lines_of_repo(repo_row));
        }
    }
    proof {
        assert(all.take(all.len() as int) =~= all);
    }
    out
}

} // verus!
