use vstd::prelude::*;

use crate::error::AppError;
use crate::listing::{grants_admin, lookup_grants_admin};
use crate::models::{CollaboratorPermission, RemoveFailure, RemoveItem, RemoveResponse, RemoveSuccess};
use crate::status::{decimal, decimal_text};
use crate::text::chars_of;

verus! {

/// Whether `c` has the Unicode White_Space property.
pub open spec fn is_white_space(c: char) -> bool {
    c == '\t' || c == '\n' || c == '\x0B' || c == '\x0C' || c == '\r' || c == ' ' || c == '\u{85}'
        || c == '\u{A0}' || c == '\u{1680}' || ('\u{2000}' <= c <= '\u{200A}') || c == '\u{2028}'
        || c == '\u{2029}' || c == '\u{202F}' || c == '\u{205F}' || c == '\u{3000}'
}

/// Relies on `char::is_whitespace`: true exactly for the characters with the
/// Unicode White_Space property.
#[verifier::external_body]
pub(crate) fn is_whitespace_char(c: char) -> (r: bool)
    ensures
        r == is_white_space(c),
{
    c.is_whitespace()
}

/// Whether a text holds nothing but white space.
pub open spec fn is_blank(s: Seq<char>) -> bool {
    forall|i: int| 0 <= i < s.len() ==> is_white_space(#[trigger] s[i])
}

/// Whether a text holds nothing but white space.
pub fn is_blank_text(s: &str) -> (r: bool)
    ensures
        r == is_blank(s@),
{
    let cs = chars_of(s);
    let mut i: usize = 0;
    while i < cs.len()
        invariant
            cs@ == s@,
            i <= cs@.len(),
            forall|k: int| 0 <= k < i ==> is_white_space(#[trigger] cs@[k]),
        decreases cs@.len() - i,
    {
        if !is_whitespace_char(cs[i]) {
            return false;
        }
        i = i + 1;
    }
    true
}

/// An item that names no repository or no user.
pub open spec fn malformed(item: RemoveItem) -> bool {
    is_blank(item.repo@) || is_blank(item.username@)
}

/// The items of `s` that are malformed (`bad`) or well formed (`!bad`), in order.
pub open spec fn pick(s: Seq<RemoveItem>, bad: bool) -> Seq<RemoveItem>
    decreases s.len(),
{
    if s.len() == 0 {
        Seq::empty()
    } else {
        let init = pick(s.drop_last(), bad);
        if malformed(s.last()) == bad {
            init.push(s.last())
        } else {
            init
        }
    }
}

/// Why a malformed item is refused.
pub open spec fn blank_reason() -> Seq<char> {
    "repo and username must be non-empty"@
}

/// Why an item that names the viewer is refused.
pub open spec fn self_reason() -> Seq<char> {
    "cannot remove authenticated user"@
}

/// Why an item on a repository the viewer does not own is refused.
pub open spec fn not_owned_reason() -> Seq<char> {
    "repository is not owned by authenticated user"@
}

/// Why an item on a repository the viewer does not administer is refused.
pub open spec fn not_admin_reason() -> Seq<char> {
    "authenticated user does not have admin permission"@
}

/// An item that names the viewer is refused as such, whatever is known of
/// its repository: that check comes before ownership and administration.
pub proof fn lemma_viewer_refused_first(item: RemoveItem, viewer: Seq<char>, owned: bool, admin: bool)
    requires
        item.username@ == viewer,
    ensures
        gate_reason(item, viewer, owned, admin) == Some(self_reason()),
{
}

/// What was learned of one repository before any removal on it.
#[derive(Debug, Clone, PartialEq, Eq)]
pub struct RepoFacts {
    pub repo: String,
    pub owned: bool,
    pub admin: bool,
}

/// The facts of a repository from its checks: owned only when the existence
/// check found it, administered only when owned and the permission lookup
/// showed an administrative role; every failure denies.
pub fn repo_facts(
    repo: String,
    ownership: Result<bool, AppError>,
    admin_lookup: Option<Result<Option<CollaboratorPermission>, AppError>>,
) -> (r: RepoFacts)
    ensures
        r.repo@ == repo@,
        r.owned == (ownership == Ok::<bool, AppError>(true)),
        r.admin == (r.owned && (admin_lookup matches Some(l) && grants_admin(l))),
{
    let owned = match ownership {
        Ok(b) => b,
        Err(_) => false,
    };
    let admin = owned && match &admin_lookup {
        Some(l) => lookup_grants_admin(l),
        None => false,
    };
    RepoFacts { repo, owned, admin }
}

/// The fact of `repo` in `facts`: whether some entry for it says it is owned.
pub open spec fn owned_in(facts: Seq<RepoFacts>, repo: Seq<char>) -> bool {
    exists|i: int| 0 <= i < facts.len() && (#[trigger] facts[i]).repo@ == repo && facts[i].owned
}

/// Whether some entry for `repo` in `facts` says it is administered.
pub open spec fn admin_in(facts: Seq<RepoFacts>, repo: Seq<char>) -> bool {
    exists|i: int| 0 <= i < facts.len() && (#[trigger] facts[i]).repo@ == repo && facts[i].admin
}

/// No two entries are for the same repository.
pub open spec fn distinct_repos(facts: Seq<RepoFacts>) -> bool {
    forall|i: int, j: int|
        0 <= i < facts.len() && 0 <= j < facts.len() && i != j ==> (#[trigger] facts[i]).repo@
            != (#[trigger] facts[j]).repo@
}

/// Why an item is refused before any request, if it is: the viewer first,
/// then ownership, then administration.
pub open spec fn gate_reason(item: RemoveItem, viewer: Seq<char>, owned: bool, admin: bool) -> Option<Seq<char>> {
    if item.username@ == viewer {
        Some(self_reason())
    } else if !owned {
        Some(not_owned_reason())
    } else if !admin {
        Some(not_admin_reason())
    } else {
        None
    }
}

/// Why a removal failed, from the deletion's status (`None`: no response at
/// all); nothing for 204.
pub open spec fn deletion_reason(status: Option<u16>) -> Option<Seq<char>> {
    match status {
        None => Some("upstream request failed"@),
        Some(s) => if s == 204 {
            None
        } else if s == 403 {
            Some("insufficient permissions"@)
        } else if s == 422 {
            Some("validation failed or abuse detection triggered"@)
        } else if s == 404 {
            Some("collaborator not found"@)
        } else {
            Some("unexpected response status: "@ + decimal(s as nat))
        },
    }
}

/// The verdict on an item that reached the deletion step: why it failed, or
/// nothing when it went through.
pub open spec fn verdict(item: RemoveItem, viewer: Seq<char>, owned: bool, admin: bool, status: Option<u16>) -> Option<Seq<char>> {
    match gate_reason(item, viewer, owned, admin) {
        Some(reason) => Some(reason),
        None => deletion_reason(status),
    }
}

/// What an upstream that holds the collaborators `present` (repository,
/// login) answers to the deletion of `item`: 204 while it is there, 404 once
/// it is not.
pub open spec fn upstream_answer(present: Set<(Seq<char>, Seq<char>)>, item: RemoveItem) -> u16 {
    if present.contains((item.repo@, item.username@)) {
        204
    } else {
        404
    }
}

/// Submitting the same removal twice against such an upstream: the first
/// goes through and takes the collaborator away, the second fails with
/// "collaborator not found".
pub proof fn lemma_removal_twice(
    item: RemoveItem,
    viewer: Seq<char>,
    owned: bool,
    admin: bool,
    present: Set<(Seq<char>, Seq<char>)>,
)
    requires
        gate_reason(item, viewer, owned, admin) is None,
        present.contains((item.repo@, item.username@)),
    ensures
        verdict(item, viewer, owned, admin, Some(upstream_answer(present, item))) is None,
        verdict(
            item,
            viewer,
            owned,
            admin,
            Some(upstream_answer(present.remove((item.repo@, item.username@)), item)),
        ) == Some("collaborator not found"@),
{
}

/// Why a removal failed, from the deletion's status; nothing for 204.
pub fn removal_failure_reason(status: Option<u16>) -> (r: Option<String>)
    ensures
        crate::link::opt_view(r) == deletion_reason(status),
{
    match status {
        None => Some("upstream request failed".to_owned()),
        Some(s) => if s == 204 {
            None
        } else if s == 403 {
            Some("insufficient permissions".to_owned())
        } else if s == 422 {
            Some("validation failed or abuse detection triggered".to_owned())
        } else if s == 404 {
            Some("collaborator not found".to_owned())
        } else {
            Some("unexpected response status: ".to_owned().concat(decimal_text(s).as_str()))
        },
    }
}

/// The facts recorded for `repo`: (owned, administered), both false when
/// none are.
pub fn lookup_facts(facts: &Vec<RepoFacts>, repo: &String) -> (r: (bool, bool))
    requires
        distinct_repos(facts@),
    ensures
        r.0 == owned_in(facts@, repo@),
        r.1 == admin_in(facts@, repo@),
{
    let mut i: usize = 0;
    while i < facts.len()
        invariant
            i <= facts@.len(),
            distinct_repos(facts@),
            forall|k: int| 0 <= k < i ==> (#[trigger] facts@[k]).repo@ != repo@,
        decreases facts@.len() - i,
    {
        if facts[i].repo == *repo {
            proof {
                assert forall|k: int| 0 <= k < facts@.len() && (#[trigger] facts@[k]).repo@ == repo@ implies k == i by {
                    if k != i {
                        assert(facts@[k].repo@ != facts@[i as int].repo@);
                    }
                }
            }
            return (facts[i].owned, facts[i].admin);
        }
        i = i + 1;
    }
    (false, false)
}

/// Some item of `items` is on the repository `name`.
pub open spec fn names_repo(items: Seq<RemoveItem>, name: Seq<char>) -> bool {
    exists|k: int| 0 <= k < items.len() && (#[trigger] items[k]).repo@ == name
}

/// `name` is among `names`.
pub open spec fn listed(names: Seq<String>, name: Seq<char>) -> bool {
    exists|i: int| 0 <= i < names.len() && (#[trigger] names[i])@ == name
}

/// Whether `facts` has an entry for `repo`.
fn has_facts_for(facts: &Vec<RepoFacts>, repo: &String) -> (r: bool)
    ensures
        r == exists|i: int| 0 <= i < facts@.len() && (#[trigger] facts@[i]).repo@ == repo@,
{
    let mut i: usize = 0;
    while i < facts.len()
        invariant
            i <= facts@.len(),
            forall|k: int| 0 <= k < i ==> (#[trigger] facts@[k]).repo@ != repo@,
        decreases facts@.len() - i,
    {
        if facts[i].repo == *repo {
            return true;
        }
        i = i + 1;
    }
    false
}

/// Why `item` is refused before any request, if it is.
pub fn gate(item: &RemoveItem, viewer: &String, facts: &Vec<RepoFacts>) -> (r: Option<String>)
    requires
        distinct_repos(facts@),
    ensures
        crate::link::opt_view(r) == gate_reason(
            *item,
            viewer@,
            owned_in(facts@, item.repo@),
            admin_in(facts@, item.repo@),
        ),
{
    if item.username == *viewer {
        return Some("cannot remove authenticated user".to_owned());
    }
    let (owned, admin) = lookup_facts(facts, &item.repo);
    if !owned {
        return Some("repository is not owned by authenticated user".to_owned());
    }
    if !admin {
        return Some("authenticated user does not have admin permission".to_owned());
    }
    None
}

/// A copy of an item.
fn copy_item(item: &RemoveItem) -> (r: RemoveItem)
    ensures
        r.repo@ == item.repo@,
        r.username@ == item.username@,
{
    RemoveItem { repo: item.repo.clone(), username: item.username.clone() }
}

/// One removal batch: the well-formed items still to decide, the facts of
/// their repositories, and the outcomes so far.
pub struct RemovalBatch {
    viewer: String,
    valid: Vec<RemoveItem>,
    cursor: usize,
    awaiting: bool,
    facts: Vec<RepoFacts>,
    success: Vec<RemoveSuccess>,
    failed: Vec<RemoveFailure>,
    total: Ghost<nat>,
}

impl RemovalBatch {
    /// The signed-in account.
    pub closed spec fn viewer_login(&self) -> Seq<char> {
        self.viewer@
    }

    /// The well-formed items, in the order given.
    pub closed spec fn items(&self) -> Seq<RemoveItem> {
        self.valid@
    }

    /// How many well-formed items have been taken up.
    pub closed spec fn position(&self) -> nat {
        self.cursor as nat
    }

    /// Whether the last item taken up waits for its deletion's status.
    pub closed spec fn is_awaiting(&self) -> bool {
        self.awaiting
    }

    /// The facts recorded so far.
    pub closed spec fn known_facts(&self) -> Seq<RepoFacts> {
        self.facts@
    }

    /// The removals that went through.
    pub closed spec fn successes(&self) -> Seq<RemoveSuccess> {
        self.success@
    }

    /// The items refused or failed, with reasons.
    pub closed spec fn failures(&self) -> Seq<RemoveFailure> {
        self.failed@
    }

    /// How many items the batch was given.
    pub closed spec fn submitted(&self) -> nat {
        self.total@
    }

    /// Every item given is an outcome, is still to decide, or awaits its
    /// status; and the facts name each repository once.
    pub closed spec fn wf(&self) -> bool {
        &&& self.cursor <= self.valid@.len()
        &&& (self.awaiting ==> self.cursor > 0)
        &&& distinct_repos(self.facts@)
        &&& self.success@.len() + self.failed@.len() + (self.valid@.len() - self.cursor) + (if self.awaiting {
            1int
        } else {
            0int
        }) == self.total@
    }

    /// Starts a batch for the account `viewer`. An empty batch is a bad
    /// request; each malformed item fails at once and goes no further.
    pub fn new(viewer: &str, items: Vec<RemoveItem>) -> (r: Result<Self, AppError>)
        ensures
            items@.len() == 0 <==> r is Err,
            (r matches Err(e) ==> e matches AppError::BadRequest(m) && m@ == "items must not be empty"@),
            (r matches Ok(b) ==> {
                &&& b.wf()
                &&& b.viewer_login() == viewer@
                &&& b.submitted() == items@.len()
                &&& b.items() == pick(items@, false)
                &&& b.position() == 0
                &&& !b.is_awaiting()
                &&& b.known_facts().len() == 0
                &&& b.successes().len() == 0
                &&& b.failures().len() == pick(items@, true).len()
                &&& forall|k: int| 0 <= k < b.failures().len() ==> {
                    &&& (#[trigger] b.failures()[k]).repo@ == pick(items@, true)[k].repo@
                    &&& b.failures()[k].username@ == pick(items@, true)[k].username@
                    &&& b.failures()[k].reason@ == blank_reason()
                }
            }),
    {
        if items.len() == 0 {
            return Err(AppError::BadRequest("items must not be empty".to_owned()));
        }
        let ghost all = items@;
        let mut valid: Vec<RemoveItem> = Vec::new();
        let mut failed: Vec<RemoveFailure> = Vec::new();
        for item in it: items.into_iter()
            invariant
                it.seq() == all,
                valid@ == pick(all.take(it.index() as int), false),
                failed@.len() == pick(all.take(it.index() as int), true).len(),
                forall|k: int| 0 <= k < failed@.len() ==> {
                    &&& (#[trigger] failed@[k]).repo@ == pick(all.take(it.index() as int), true)[k].repo@
                    &&& failed@[k].username@ == pick(all.take(it.index() as int), true)[k].username@
                    &&& failed@[k].reason@ == blank_reason()
                },
                valid@.len() + failed@.len() == it.index(),
        {
            let ghost i = it.index() as int;
            proof {
                assert(all.take(i + 1).drop_last() =~= all.take(i));
                assert(all.take(i + 1).last() == all[i]);
            }
            if is_blank_text(item.repo.as_str()) || is_blank_text(item.username.as_str()) {
                failed.push(
                    RemoveFailure {
                        repo: item.repo,
                        username: item.username,
                        reason: "repo and username must be non-empty".to_owned(),
                    },
                );
            } else {
                valid.push(item);
            }
        }
        proof {
            assert(all.take(all.len() as int) =~= all);
        }
        Ok(
            RemovalBatch {
                viewer: viewer.to_owned(),
                valid,
                cursor: 0,
                awaiting: false,
                facts: Vec::new(),
                success: Vec::new(),
                failed,
                total: Ghost(all.len()),
            },
        )
    }

    /// The repositories the well-formed items name, each once, in order of
    /// first mention.
    pub fn repos_to_check(&self) -> (r: Vec<String>)
        ensures
            forall|i: int, j: int| 0 <= i < j < r@.len() ==> (#[trigger] r@[i])@ != (#[trigger] r@[j])@,
            forall|i: int| 0 <= i < r@.len() ==> names_repo(self.items(), #[trigger] r@[i]@),
            forall|k: int| 0 <= k < self.items().len() ==> listed(r@, (#[trigger] self.items()[k]).repo@),
    {
        let mut out: Vec<String> = Vec::new();
        let mut k: usize = 0;
        while k < self.valid.len()
            invariant
                k <= self.valid@.len(),
                forall|i: int, j: int| 0 <= i < j < out@.len() ==> (#[trigger] out@[i])@ != (#[trigger] out@[j])@,
                forall|i: int| 0 <= i < out@.len() ==> names_repo(self.valid@.take(k as int), #[trigger] out@[i]@),
                forall|m: int| 0 <= m < k ==> listed(out@, (#[trigger] self.valid@[m]).repo@),
            decreases self.valid@.len() - k,
        {
            let name = &self.valid[k].repo;
            let ghost before = out@;
            let ghost pre = self.valid@.take(k as int);
            let ghost post = self.valid@.take(k + 1);
            proof {
                assert forall|i: int| 0 <= i < out@.len() implies names_repo(post, #[trigger] out@[i]@) by {
                    let m = choose|m: int| 0 <= m < pre.len() && (#[trigger] pre[m]).repo@ == out@[i]@;
                    assert(post[m] == pre[m]);
                }
                assert(post[k as int] == self.valid@[k as int]);
            }
            let mut seen = false;
            let mut j: usize = 0;
            while j < out.len()
                invariant
                    j <= out@.len(),
                    seen == exists|i: int| 0 <= i < j && (#[trigger] out@[i])@ == name@,
                decreases out@.len() - j,
            {
                if out[j] == *name {
                    seen = true;
                }
                j = j + 1;
            }
            if !seen {
                out.push(name.clone());
                proof {
                    assert forall|i: int| 0 <= i < out@.len() implies names_repo(post, #[trigger] out@[i]@) by {
                        if i < before.len() {
                            assert(out@[i] == before[i]);
                        }
                    }
                    assert forall|m: int| 0 <= m < k + 1 implies listed(out@, (#[trigger] self.valid@[m]).repo@) by {
                        if m < k {
                            let i = choose|i: int| 0 <= i < before.len() && (#[trigger] before[i])@ == self.valid@[m].repo@;
                            assert(out@[i] == before[i]);
                        } else {
                            assert(out@[before.len() as int]@ == self.valid@[m].repo@);
                        }
                    }
                }
            }
            k = k + 1;
        }
        proof {
            assert(self.valid@.take(k as int) =~= self.items());
        }
        out
    }

    /// Records the facts of one repository; the first record of a
    /// repository stands.
    pub fn record_facts(&mut self, facts: RepoFacts)
        requires
            old(self).wf(),
        ensures
            final(self).wf(),
            final(self).viewer_login() == old(self).viewer_login(),
            final(self).items() == old(self).items(),
            final(self).position() == old(self).position(),
            final(self).is_awaiting() == old(self).is_awaiting(),
            final(self).successes() == old(self).successes(),
            final(self).failures() == old(self).failures(),
            final(self).submitted() == old(self).submitted(),
            (exists|i: int| 0 <= i < old(self).known_facts().len() && (#[trigger] old(self).known_facts()[i]).repo@ == facts.repo@)
                ==> final(self).known_facts() == old(self).known_facts(),
            !(exists|i: int| 0 <= i < old(self).known_facts().len() && (#[trigger] old(self).known_facts()[i]).repo@ == facts.repo@)
                ==> final(self).known_facts() == old(self).known_facts().push(facts),
    {
        if has_facts_for(&self.facts, &facts.repo) {
            return;
        }
        self.facts.push(facts);
    }

    /// Whether items are left to take up.
    pub fn has_pending(&self) -> (r: bool)
        ensures
            r == (self.position() < self.items().len()),
    {
        self.cursor < self.valid.len()
    }

    /// Whether an item waits for its deletion's status.
    pub fn awaiting_deletion(&self) -> (r: bool)
        ensures
            r == self.is_awaiting(),
    {
        self.awaiting
    }

    /// Moves to the next item.
    ///
    /// A refused item is recorded as failed with its reason, and the result
    /// is `None`; otherwise the result is the item, for the caller to delete,
    /// and its status is awaited.
    pub fn take_next(&mut self) -> (r: Option<RemoveItem>)
        requires
            old(self).wf(),
            !old(self).is_awaiting(),
            old(self).position() < old(self).items().len(),
        ensures
            final(self).wf(),
            final(self).viewer_login() == old(self).viewer_login(),
            final(self).items() == old(self).items(),
            final(self).known_facts() == old(self).known_facts(),
            final(self).submitted() == old(self).submitted(),
            final(self).successes() == old(self).successes(),
            final(self).position() == old(self).position() + 1,
            ({
                let item = old(self).items()[old(self).position() as int];
                let facts = old(self).known_facts();
                match gate_reason(item, old(self).viewer_login(), owned_in(facts, item.repo@), admin_in(facts, item.repo@)) {
                    Some(reason) => {
                        &&& r is None
                        &&& !final(self).is_awaiting()
                        &&& final(self).failures().len() == old(self).failures().len() + 1
                        &&& final(self).failures().drop_last() == old(self).failures()
                        &&& final(self).failures().last().repo@ == item.repo@
                        &&& final(self).failures().last().username@ == item.username@
                        &&& final(self).failures().last().reason@ == reason
                    },
                    None => {
                        &&& final(self).is_awaiting()
                        &&& final(self).failures() == old(self).failures()
                        &&& r matches Some(it) && it.repo@ == item.repo@ && it.username@ == item.username@
                    },
                }
            }),
    {
        let i = self.cursor;
        assert(i < self.valid.len());
        let next: usize = i + 1;
        let reason = gate(&self.valid[i], &self.viewer, &self.facts);
        self.cursor = next;
        match reason {
            Some(reason) => {
                let item = copy_item(&self.valid[i]);
                self.failed.push(RemoveFailure { repo: item.repo, username: item.username, reason });
                proof {
                    assert(self.failed@.drop_last() =~= old(self).failed@);
                }
                None
            },
            None => {
                self.awaiting = true;
                Some(copy_item(&self.valid[i]))
            },
        }
    }

    /// Records the status of the awaited deletion (`None`: no response at
    /// all): 204 is a success, anything else a failure with its reason.
    pub fn record_deletion(&mut self, status: Option<u16>)
        requires
            old(self).wf(),
            old(self).is_awaiting(),
        ensures
            final(self).wf(),
            !final(self).is_awaiting(),
            final(self).viewer_login() == old(self).viewer_login(),
            final(self).items() == old(self).items(),
            final(self).position() == old(self).position(),
            final(self).known_facts() == old(self).known_facts(),
            final(self).submitted() == old(self).submitted(),
            ({
                let item = old(self).items()[old(self).position() - 1];
                match deletion_reason(status) {
                    Some(reason) => {
                        &&& final(self).successes() == old(self).successes()
                        &&& final(self).failures().len() == old(self).failures().len() + 1
                        &&& final(self).failures().drop_last() == old(self).failures()
                        &&& final(self).failures().last().repo@ == item.repo@
                        &&& final(self).failures().last().username@ == item.username@
                        &&& final(self).failures().last().reason@ == reason
                    },
                    None => {
                        &&& final(self).failures() == old(self).failures()
                        &&& final(self).successes().len() == old(self).successes().len() + 1
                        &&& final(self).successes().drop_last() == old(self).successes()
                        &&& final(self).successes().last().repo@ == item.repo@
                        &&& final(self).successes().last().username@ == item.username@
                    },
                }
            }),
    {
        let item = copy_item(&self.valid[self.cursor - 1]);
        self.awaiting = false;
        match removal_failure_reason(status) {
            Some(reason) => {
                self.failed.push(RemoveFailure { repo: item.repo, username: item.username, reason });
                proof {
                    assert(self.failed@.drop_last() =~= old(self).failed@);
                }
            },
            None => {
                self.success.push(RemoveSuccess { repo: item.repo, username: item.username });
                proof {
                    assert(self.success@.drop_last() =~= old(self).success@);
                }
            },
        }
    }

    /// The outcome of the batch once every item is decided: each item given
    /// is in exactly one of the two lists.
    pub fn finish(self) -> (r: RemoveResponse)
        requires
            self.wf(),
            self.position() == self.items().len(),
            !self.is_awaiting(),
        ensures
            r.success@ == self.successes(),
            r.failed@ == self.failures(),
            r.success@.len() + r.failed@.len() == self.submitted(),
    {
        RemoveResponse { success: self.success, failed: self.failed }
    }
}

} // verus!
