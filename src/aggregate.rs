use vstd::prelude::*;

use crate::error::AppError;
use crate::listing::{grants_admin, lookup_grants_admin, CollaboratorFetchOutcome};
use crate::models::{Collaborator, CollaboratorPermission, RepoWithCollaborators, Repository};

verus! {

/// How many repositories are worked on at once unless configured otherwise.
pub const DEFAULT_MAX_CONCURRENCY: usize = 10;

/// The collaborators of `s` other than the account `viewer`, in order.
pub open spec fn without_login(s: Seq<Collaborator>, viewer: Seq<char>) -> Seq<Collaborator>
    decreases s.len(),
{
    if s.len() == 0 {
        Seq::empty()
    } else {
        let init = without_login(s.drop_last(), viewer);
        if s.last().login@ != viewer {
            init.push(s.last())
        } else {
            init
        }
    }
}

/// No collaborator of `s` is the account `viewer`.
pub open spec fn excludes(s: Seq<Collaborator>, viewer: Seq<char>) -> bool {
    forall|k: int| 0 <= k < s.len() ==> (#[trigger] s[k]).login@ != viewer
}

/// The collaborators of `list` other than the account `viewer`, in order.
pub fn exclude_viewer(list: Vec<Collaborator>, viewer: &str) -> (r: Vec<Collaborator>)
    ensures
        r@ == without_login(list@, viewer@),
        excludes(r@, viewer@),
{
    let ghost all = list@;
    let me = viewer.to_owned();
    let mut out: Vec<Collaborator> = Vec::new();
    for c in it: list.into_iter()
        invariant
            it.seq() == all,
            out@ == without_login(all.take(it.index() as int), viewer@),
            excludes(out@, viewer@),
            me@ == viewer@,
    {
        let ghost i = it.index() as int;
        proof {
            assert(all.take(i + 1).drop_last() =~= all.take(i));
            assert(all.take(i + 1).last() == all[i]);
        }
        if !(c.login == me) {
            out.push(c);
        }
    }
    proof {
        assert(all.take(all.len() as int) =~= all);
    }
    out
}

/// Where one repository's pipeline stands.
pub enum Slot {
    /// Not started.
    Queued(Repository),
    /// Its collaborators are being listed.
    Fetching(Repository),
    /// The viewer's permission on it is being looked up; these are its
    /// collaborators, the viewer left out.
    Resolving(Repository, Vec<Collaborator>),
    /// Done with.
    Finished,
}

/// Whether a pipeline in this stage holds a slot of the pool.
pub open spec fn holds_slot(s: Slot) -> bool {
    s is Fetching || s is Resolving
}

/// How many of the first `n` pipelines hold a slot of the pool.
pub open spec fn open_count(s: Seq<Slot>, n: int) -> nat
    decreases n,
{
    if n <= 0 {
        0
    } else {
        open_count(s, n - 1) + if holds_slot(s[n - 1]) {
            1nat
        } else {
            0nat
        }
    }
}

proof fn lemma_open_count_update(s: Seq<Slot>, n: int, i: int, v: Slot)
    requires
        0 <= i < n <= s.len(),
    ensures
        open_count(s.update(i, v), n) + (if holds_slot(s[i]) {
            1nat
        } else {
            0nat
        }) == open_count(s, n) + (if holds_slot(v) {
            1nat
        } else {
            0nat
        }),
    decreases n,
{
    if n - 1 > i {
        lemma_open_count_update(s, n - 1, i, v);
    } else {
        assert(open_count(s.update(i, v), n - 1) == open_count(s, n - 1)) by {
            lemma_open_count_same(s, s.update(i, v), n - 1);
        }
    }
}

proof fn lemma_open_count_same(s: Seq<Slot>, t: Seq<Slot>, n: int)
    requires
        n <= s.len(),
        n <= t.len(),
        forall|k: int| 0 <= k < n ==> s[k] == t[k],
    ensures
        open_count(s, n) == open_count(t, n),
    decreases n,
{
    if n > 0 {
        lemma_open_count_same(s, t, n - 1);
    }
}

/// A pipeline to start: its slot number and the repository to list.
#[derive(Debug, Clone, PartialEq, Eq)]
pub struct PipelineStart {
    pub slot: usize,
    pub owner: String,
    pub repo: String,
}

/// The fan-out over all listed repositories: which pipelines run, what they
/// produced, and the first hard failure.
pub struct Aggregator {
    viewer: String,
    cap: usize,
    slots: Vec<Slot>,
    started: usize,
    in_flight: usize,
    rows: Vec<RepoWithCollaborators>,
    failure: Option<AppError>,
}

impl Aggregator {
    /// The account whose view is built.
    pub closed spec fn viewer_login(&self) -> Seq<char> {
        self.viewer@
    }

    /// The most pipelines that may run at once.
    pub closed spec fn cap(&self) -> nat {
        self.cap as nat
    }

    /// Pipelines running now.
    pub closed spec fn running(&self) -> nat {
        self.in_flight as nat
    }

    /// The stage of each pipeline.
    pub closed spec fn stages(&self) -> Seq<Slot> {
        self.slots@
    }

    /// Pipelines started so far.
    pub closed spec fn started_count(&self) -> nat {
        self.started as nat
    }

    /// The rows produced so far.
    pub closed spec fn produced(&self) -> Seq<RepoWithCollaborators> {
        self.rows@
    }

    /// The first hard failure, if any.
    pub closed spec fn failed_with(&self) -> Option<AppError> {
        self.failure
    }

    /// The bookkeeping agrees with itself: pipelines start in order, the
    /// running count is that of the stages, it stays within the cap, and no
    /// row or pending list names the viewer or is empty.
    pub closed spec fn wf(&self) -> bool {
        &&& self.cap > 0
        &&& self.started <= self.slots@.len()
        &&& forall|i: int| 0 <= i < self.started ==> !(#[trigger] self.slots@[i] is Queued)
        &&& forall|i: int| self.started <= i < self.slots@.len() ==> #[trigger] self.slots@[i] is Queued
        &&& self.in_flight == open_count(self.slots@, self.slots@.len() as int)
        &&& self.in_flight <= self.cap
        &&& forall|i: int| 0 <= i < self.rows@.len() ==> excludes((#[trigger] self.rows@[i]).collaborators@, self.viewer@)
        &&& forall|i: int| 0 <= i < self.rows@.len() ==> (#[trigger] self.rows@[i]).collaborators@.len() > 0
        &&& forall|i: int| 0 <= i < self.slots@.len() && (#[trigger] self.slots@[i]) is Resolving ==> excludes(self.slots@[i]->Resolving_1@, self.viewer@) && self.slots@[i]->Resolving_1@.len() > 0
    }

    /// A fan-out over `repos` for the account `viewer`, at most
    /// `max_concurrency` at once.
    pub fn new(viewer: &str, repos: Vec<Repository>, max_concurrency: usize) -> (r: Self)
        requires
            max_concurrency > 0,
        ensures
            r.wf(),
            r.viewer_login() == viewer@,
            r.cap() == max_concurrency,
            r.running() == 0,
            r.started_count() == 0,
            r.stages().len() == repos@.len(),
            forall|i: int| 0 <= i < repos@.len() ==> r.stages()[i] == Slot::Queued(repos@[i]),
            r.produced().len() == 0,
            r.failed_with() is None,
    {
        let ghost all = repos@;
        let mut slots: Vec<Slot> = Vec::new();
        for repo in it: repos.into_iter()
            invariant
                it.seq() == all,
                slots@.len() == it.index(),
                forall|i: int| 0 <= i < slots@.len() ==> slots@[i] == Slot::Queued(all[i]),
        {
            slots.push(Slot::Queued(repo));
        }
        proof {
            assert forall|n: int| 0 <= n <= slots@.len() implies open_count(slots@, n) == 0 by {
                lemma_open_count_zero(slots@, n);
            }
        }
        Aggregator {
            viewer: viewer.to_owned(),
            cap: max_concurrency,
            slots,
            started: 0,
            in_flight: 0,
            rows: Vec::new(),
            failure: None,
        }
    }

    /// Pipelines running now.
    pub fn in_flight(&self) -> (r: usize)
        ensures
            r == self.running(),
    {
        self.in_flight
    }

    /// The most pipelines that may run at once.
    pub fn max_concurrency(&self) -> (r: usize)
        ensures
            r == self.cap(),
    {
        self.cap
    }

    /// Whether nothing runs and nothing more will start.
    pub fn is_drained(&self) -> (r: bool)
        ensures
            r == (self.running() == 0 && (self.failed_with() is Some || self.started_count()
                == self.stages().len())),
    {
        self.in_flight == 0 && (self.failure.is_some() || self.started == self.slots.len())
    }

    /// Whether pipeline `slot` is listing collaborators.
    pub fn is_fetching(&self, slot: usize) -> (r: bool)
        ensures
            r == (slot < self.stages().len() && self.stages()[slot as int] is Fetching),
    {
        slot < self.slots.len() && matches!(self.slots[slot], Slot::Fetching(_))
    }

    /// Whether pipeline `slot` is looking up the viewer's permission.
    pub fn is_resolving(&self, slot: usize) -> (r: bool)
        ensures
            r == (slot < self.stages().len() && self.stages()[slot as int] is Resolving),
    {
        slot < self.slots.len() && matches!(self.slots[slot], Slot::Resolving(_, _))
    }

    /// Starts the next pipeline if a slot of the pool is free, no hard
    /// failure came, and a repository is left.
    pub fn start_next(&mut self) -> (r: Option<PipelineStart>)
        requires
            old(self).wf(),
        ensures
            final(self).wf(),
            final(self).viewer_login() == old(self).viewer_login(),
            final(self).cap() == old(self).cap(),
            final(self).produced() == old(self).produced(),
            final(self).failed_with() == old(self).failed_with(),
            r is Some <==> (old(self).failed_with() is None && old(self).running() < old(self).cap()
                && old(self).started_count() < old(self).stages().len()),
            r is None ==> final(self).stages() == old(self).stages() && final(self).running()
                == old(self).running() && final(self).started_count() == old(self).started_count(),
            (r matches Some(p) ==> {
                &&& p.slot == old(self).started_count()
                &&& final(self).started_count() == old(self).started_count() + 1
                &&& final(self).running() == old(self).running() + 1
                &&& old(self).stages()[p.slot as int] matches Slot::Queued(repo)
                &&& final(self).stages() == old(self).stages().update(p.slot as int, Slot::Fetching(repo))
                &&& p.owner@ == repo.owner.login@ && p.repo@ == repo.name@
            }),
    {
        if self.failure.is_some() || self.in_flight >= self.cap || self.started >= self.slots.len() {
            return None;
        }
        let slot = self.started;
        let ghost before = self.slots@;
        let mut taken = Slot::Finished;
        self.slots.set_and_swap(slot, &mut taken);
        let repo = match taken {
            Slot::Queued(repo) => repo,
            _ => {
                assert(false);
                return None;
            },
        };
        let owner = repo.owner.login.clone();
        let name = repo.name.clone();
        let mut fetching = Slot::Fetching(repo);
        self.slots.set_and_swap(slot, &mut fetching);
        proof {
            assert(self.slots@ =~= before.update(slot as int, Slot::Fetching(before[slot as int]->Queued_0)));
            lemma_open_count_update(before, before.len() as int, slot as int, self.slots@[slot as int]);
        }
        self.started = slot + 1;
        self.in_flight = self.in_flight + 1;
        Some(PipelineStart { slot, owner, repo: name })
    }

    /// Takes in the collaborator listing of pipeline `slot`. A hard error is
    /// kept as the fan-out's failure (the first one wins) and ends the
    /// pipeline; a refusal, or a list with no one but the viewer, ends it
    /// with no row; otherwise the viewer is left out of the list and the
    /// pipeline goes on to the permission lookup, which the result asks for.
    pub fn on_collaborators(
        &mut self,
        slot: usize,
        fetched: Result<CollaboratorFetchOutcome, AppError>,
    ) -> (needs_permission: bool)
        requires
            old(self).wf(),
            slot < old(self).stages().len(),
            old(self).stages()[slot as int] is Fetching,
        ensures
            final(self).wf(),
            final(self).viewer_login() == old(self).viewer_login(),
            final(self).cap() == old(self).cap(),
            final(self).started_count() == old(self).started_count(),
            final(self).produced() == old(self).produced(),
            final(self).stages().len() == old(self).stages().len(),
            forall|i: int| 0 <= i < old(self).stages().len() && i != slot ==> final(self).stages()[i] == old(self).stages()[i],
            (fetched matches Err(e) ==> final(self).failed_with() == (match old(self).failed_with() {
                Some(f) => Some(f),
                None => Some(e),
            })),
            fetched is Ok ==> final(self).failed_with() == old(self).failed_with(),
            needs_permission <==> (fetched matches Ok(CollaboratorFetchOutcome::Success(list))
                && without_login(list@, old(self).viewer_login()).len() > 0),
            needs_permission ==> final(self).running() == old(self).running()
                && (fetched matches Ok(CollaboratorFetchOutcome::Success(list))
                && final(self).stages()[slot as int] matches Slot::Resolving(repo, kept)
                && old(self).stages()[slot as int] == Slot::Fetching(repo)
                && kept@ == without_login(list@, old(self).viewer_login())),
            !needs_permission ==> final(self).running() + 1 == old(self).running()
                && final(self).stages()[slot as int] is Finished,
    {
        let ghost before = self.slots@;
        let mut taken = Slot::Finished;
        self.slots.set_and_swap(slot, &mut taken);
        let repo = match taken {
            Slot::Fetching(repo) => repo,
            _ => {
                assert(false);
                return false;
            },
        };
        proof {
            lemma_open_count_update(before, before.len() as int, slot as int, Slot::Finished);
        }
        let list = match fetched {
            Err(e) => {
                if self.failure.is_none() {
                    self.failure = Some(e);
                }
                self.in_flight = self.in_flight - 1;
                return false;
            },
            Ok(CollaboratorFetchOutcome::Forbidden) => {
                self.in_flight = self.in_flight - 1;
                return false;
            },
            Ok(CollaboratorFetchOutcome::Success(list)) => list,
        };
        let kept = exclude_viewer(list, self.viewer.as_str());
        if kept.len() == 0 {
            self.in_flight = self.in_flight - 1;
            return false;
        }
        let ghost mid = self.slots@;
        let mut resolving = Slot::Resolving(repo, kept);
        self.slots.set_and_swap(slot, &mut resolving);
        proof {
            lemma_open_count_update(mid, mid.len() as int, slot as int, self.slots@[slot as int]);
        }
        true
    }

    /// Takes in the viewer's permission lookup for pipeline `slot`, which
    /// ends it with a row: its repository, its collaborators, and whether the
    /// viewer may remove them, which a failed lookup denies.
    pub fn on_permission(
        &mut self,
        slot: usize,
        lookup: Result<Option<CollaboratorPermission>, AppError>,
    )
        requires
            old(self).wf(),
            slot < old(self).stages().len(),
            old(self).stages()[slot as int] is Resolving,
        ensures
            final(self).wf(),
            final(self).viewer_login() == old(self).viewer_login(),
            final(self).cap() == old(self).cap(),
            final(self).started_count() == old(self).started_count(),
            final(self).failed_with() == old(self).failed_with(),
            final(self).running() + 1 == old(self).running(),
            final(self).stages() == old(self).stages().update(slot as int, Slot::Finished),
            (old(self).stages()[slot as int] matches Slot::Resolving(repo, kept)
                && final(self).produced() == old(self).produced().push(
                RepoWithCollaborators { repo, collaborators: kept, can_remove: grants_admin(lookup) },
            )),
    {
        let ghost before = self.slots@;
        let mut taken = Slot::Finished;
        self.slots.set_and_swap(slot, &mut taken);
        let (repo, kept) = match taken {
            Slot::Resolving(repo, kept) => (repo, kept),
            _ => {
                assert(false);
                return;
            },
        };
        proof {
            lemma_open_count_update(before, before.len() as int, slot as int, Slot::Finished);
            assert(self.slots@ =~= before.update(slot as int, Slot::Finished));
        }
        let can_remove = lookup_grants_admin(&lookup);
        self.rows.push(RepoWithCollaborators { repo, collaborators: kept, can_remove });
        self.in_flight = self.in_flight - 1;
    }

    /// The result of the fan-out: the first hard failure, or every row.
    pub fn finish(self) -> (r: Result<Vec<RepoWithCollaborators>, AppError>)
        ensures
            (self.failed_with() matches Some(e) ==> r == Err::<Vec<RepoWithCollaborators>, AppError>(e)),
            (self.failed_with() is None ==> (r matches Ok(rows) && rows@ == self.produced())),
    {
        match self.failure {
            Some(e) => Err(e),
            None => Ok(self.rows),
        }
    }
}

proof fn lemma_open_count_zero(s: Seq<Slot>, n: int)
    requires
        0 <= n <= s.len(),
        forall|i: int| 0 <= i < s.len() ==> #[trigger] s[i] is Queued,
    ensures
        open_count(s, n) == 0,
    decreases n,
{
    if n > 0 {
        lemma_open_count_zero(s, n - 1);
    }
}

/// However an aggregation proceeds, the number of pipelines running never
/// exceeds the cap it was made with.
pub proof fn lemma_running_within_cap(agg: &Aggregator)
    requires
        agg.wf(),
    ensures
        agg.running() <= agg.cap(),
{
}

/// However an aggregation proceeds, no row it produced lists the viewer
/// among the collaborators, and none is empty.
pub proof fn lemma_rows_exclude_viewer(agg: &Aggregator)
    requires
        agg.wf(),
    ensures
        forall|i: int| 0 <= i < agg.produced().len() ==> excludes(
            (#[trigger] agg.produced()[i]).collaborators@,
            agg.viewer_login(),
        ) && agg.produced()[i].collaborators@.len() > 0,
{
}

} // verus!
