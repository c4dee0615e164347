use vstd::prelude::*;

verus! {

/// The verdict for one local branch.
#[derive(Clone, Copy, Debug, PartialEq, Eq, Structural)]
pub enum SyncStatus {
    Synced,
    AheadOfUpstream,
    Diverged,
    NoUpstream,
    UpstreamRemoteNotSynced,
    NameUnresolvable,
}

/// A commit identifier, as the raw bytes of its object id.
pub type CommitId = Vec<u8>;

/// What the backend reported about a local branch, before any ancestry walk.
pub struct BranchFacts {
    /// The branch's name; `None` when the backend could not give one.
    pub name: Option<String>,
    /// Whether the branch has an upstream tracking branch.
    pub has_upstream: bool,
    /// The backend's explanation when the branch has no upstream.
    pub upstream_error: String,
    /// The remote that owns the upstream; `None` when it could not be resolved.
    pub upstream_remote: Option<String>,
    /// The commits of the branch and of its upstream; `None` when either
    /// reference could not be resolved to a commit.
    pub commits: Option<(CommitId, CommitId)>,
}

/// What is to be done with a branch once its facts are known.
#[derive(Debug, PartialEq, Eq, Structural)]
pub enum BranchPlan {
    /// The branch has its final status, without any ancestry walk.
    Finished(SyncStatus),
    /// The backend failed in an unexpected way; the branch gets no status.
    BackendError,
    /// Walk the ancestry of the upstream commit and hand the walk to
    /// `after_upstream_walk`.
    WalkUpstream,
}

/// What follows the walk from the upstream commit.
#[derive(Debug, PartialEq, Eq, Structural)]
pub enum AncestryStep {
    /// The branch has its final status.
    Decided(SyncStatus),
    /// Walk the ancestry of the local commit and hand the walk to
    /// `after_local_walk`.
    WalkLocal,
}

/// `c` occurs in the walk `w`.
pub open spec fn walk_has(w: Seq<Vec<u8>>, c: Seq<u8>) -> bool {
    exists|i: int| 0 <= i < w.len() && (#[trigger] w[i])@ == c
}

/// `w` is a walk seeded at `seed`: a topological walk visits its seed first.
pub open spec fn seeded_at(w: Seq<Vec<u8>>, seed: Seq<u8>) -> bool {
    w.len() > 0 && w[0]@ == seed
}

/// Whether `name` is one of `names`.
pub open spec fn names_have(names: Seq<String>, name: Seq<char>) -> bool {
    exists|i: int| 0 <= i < names.len() && (#[trigger] names[i])@ == name
}

/// The plan for a branch, from its facts and the remotes fetched this run.
pub open spec fn plan_spec(f: BranchFacts, synced: Seq<String>) -> BranchPlan {
    if f.name is None {
        BranchPlan::Finished(SyncStatus::NameUnresolvable)
    } else if !f.has_upstream {
        BranchPlan::Finished(SyncStatus::NoUpstream)
    } else if f.upstream_remote is None {
        BranchPlan::Finished(SyncStatus::NameUnresolvable)
    } else if !names_have(synced, f.upstream_remote->0@) {
        BranchPlan::Finished(SyncStatus::UpstreamRemoteNotSynced)
    } else if f.commits is None {
        BranchPlan::BackendError
    } else {
        BranchPlan::WalkUpstream
    }
}

/// The status that the two ancestry questions give.
pub open spec fn classify_spec(local_in_upstream: bool, upstream_in_local: bool) -> SyncStatus {
    if local_in_upstream {
        SyncStatus::Synced
    } else if upstream_in_local {
        SyncStatus::AheadOfUpstream
    } else {
        SyncStatus::Diverged
    }
}

/// The status of a branch whose plan is to walk, given both walks: the
/// walk from the upstream commit and the walk from the local commit.
pub open spec fn ancestry_status(
    upstream_walk: Seq<Vec<u8>>,
    local_walk: Seq<Vec<u8>>,
    local: Seq<u8>,
    upstream: Seq<u8>,
) -> SyncStatus {
    classify_spec(walk_has(upstream_walk, local), walk_has(local_walk, upstream))
}

/// The local commit of a branch whose commits were resolved.
pub open spec fn local_commit(f: BranchFacts) -> Seq<u8> {
    match f.commits {
        Some((l, _)) => l@,
        None => Seq::empty(),
    }
}

/// The upstream commit of a branch whose commits were resolved.
pub open spec fn upstream_commit(f: BranchFacts) -> Seq<u8> {
    match f.commits {
        Some((_, u)) => u@,
        None => Seq::empty(),
    }
}

/// The status of a branch, given the remotes fetched this run and the two
/// walks that the plan may ask for; `None` for an unexpected backend error.
pub open spec fn branch_status(
    f: BranchFacts,
    synced: Seq<String>,
    upstream_walk: Seq<Vec<u8>>,
    local_walk: Seq<Vec<u8>>,
) -> Option<SyncStatus> {
    match plan_spec(f, synced) {
        BranchPlan::Finished(s) => Some(s),
        BranchPlan::BackendError => None,
        BranchPlan::WalkUpstream => Some(
            ancestry_status(upstream_walk, local_walk, local_commit(f), upstream_commit(f)),
        ),
    }
}

/// A branch whose commit is its upstream's commit is synced: the walk from
/// the upstream visits that commit first.
pub proof fn lemma_same_commit_is_synced(
    upstream_walk: Seq<Vec<u8>>,
    local_walk: Seq<Vec<u8>>,
    local: Seq<u8>,
    upstream: Seq<u8>,
)
    requires
        local == upstream,
        seeded_at(upstream_walk, upstream),
    ensures
        ancestry_status(upstream_walk, local_walk, local, upstream) == SyncStatus::Synced,
{
    assert(upstream_walk[0]@ == local);
}

/// A branch whose upstream commit is a strict ancestor of its commit (the
/// upstream is in the local ancestry, the local commit is not in the
/// upstream's) is ahead of its upstream.
pub proof fn lemma_strict_descendant_is_ahead(
    upstream_walk: Seq<Vec<u8>>,
    local_walk: Seq<Vec<u8>>,
    local: Seq<u8>,
    upstream: Seq<u8>,
)
    requires
        walk_has(local_walk, upstream),
        !walk_has(upstream_walk, local),
    ensures
        ancestry_status(upstream_walk, local_walk, local, upstream)
            == SyncStatus::AheadOfUpstream,
{
}

/// A branch and an upstream of which neither contains the other have
/// diverged.
pub proof fn lemma_neither_contains_is_diverged(
    upstream_walk: Seq<Vec<u8>>,
    local_walk: Seq<Vec<u8>>,
    local: Seq<u8>,
    upstream: Seq<u8>,
)
    requires
        !walk_has(local_walk, upstream),
        !walk_has(upstream_walk, local),
    ensures
        ancestry_status(upstream_walk, local_walk, local, upstream) == SyncStatus::Diverged,
{
}

/// A named branch without an upstream is `NoUpstream`, whatever else is
/// known of it, and is never walked.
pub proof fn lemma_no_upstream(
    f: BranchFacts,
    synced: Seq<String>,
    upstream_walk: Seq<Vec<u8>>,
    local_walk: Seq<Vec<u8>>,
)
    requires
        f.name is Some,
        !f.has_upstream,
    ensures
        plan_spec(f, synced) == BranchPlan::Finished(SyncStatus::NoUpstream),
        branch_status(f, synced, upstream_walk, local_walk) == Some(SyncStatus::NoUpstream),
{
}

/// A branch whose upstream belongs to a remote that was not fetched this run
/// is `UpstreamRemoteNotSynced`, and is never walked.
pub proof fn lemma_unfetched_remote(
    f: BranchFacts,
    synced: Seq<String>,
    upstream_walk: Seq<Vec<u8>>,
    local_walk: Seq<Vec<u8>>,
)
    requires
        f.name is Some,
        f.has_upstream,
        f.upstream_remote is Some,
        !names_have(synced, f.upstream_remote->0@),
    ensures
        plan_spec(f, synced) == BranchPlan::Finished(SyncStatus::UpstreamRemoteNotSynced),
        branch_status(f, synced, upstream_walk, local_walk) == Some(
            SyncStatus::UpstreamRemoteNotSynced,
        ),
{
}

/// The abstract content of a branch's facts.
pub open spec fn facts_view(f: BranchFacts) -> (
    Option<Seq<char>>,
    bool,
    Option<Seq<char>>,
    Option<(Seq<u8>, Seq<u8>)>,
) {
    (
        match f.name {
            Some(n) => Some(n@),
            None => None,
        },
        f.has_upstream,
        match f.upstream_remote {
            Some(n) => Some(n@),
            None => None,
        },
        match f.commits {
            Some(c) => Some((c.0@, c.1@)),
            None => None,
        },
    )
}

/// The same facts, fetched remotes and walks give the same status: auditing
/// an unchanged repository again gives the same outcome.
pub proof fn lemma_audit_is_repeatable(
    f1: BranchFacts,
    f2: BranchFacts,
    synced1: Seq<String>,
    synced2: Seq<String>,
    upstream_walk1: Seq<Vec<u8>>,
    upstream_walk2: Seq<Vec<u8>>,
    local_walk1: Seq<Vec<u8>>,
    local_walk2: Seq<Vec<u8>>,
)
    requires
        facts_view(f1) == facts_view(f2),
        synced1.map_values(|s: String| s@) == synced2.map_values(|s: String| s@),
        upstream_walk1.map_values(|c: Vec<u8>| c@) == upstream_walk2.map_values(|c: Vec<u8>| c@),
        local_walk1.map_values(|c: Vec<u8>| c@) == local_walk2.map_values(|c: Vec<u8>| c@),
    ensures
        branch_status(f1, synced1, upstream_walk1, local_walk1) == branch_status(
            f2,
            synced2,
            upstream_walk2,
            local_walk2,
        ),
{
    assert(synced1.map_values(|s: String| s@).len() == synced1.len());
    assert(synced2.map_values(|s: String| s@).len() == synced2.len());
    assert(upstream_walk1.map_values(|c: Vec<u8>| c@).len() == upstream_walk1.len());
    assert(upstream_walk2.map_values(|c: Vec<u8>| c@).len() == upstream_walk2.len());
    assert(local_walk1.map_values(|c: Vec<u8>| c@).len() == local_walk1.len());
    assert(local_walk2.map_values(|c: Vec<u8>| c@).len() == local_walk2.len());
    assert forall|i: int| 0 <= i < synced1.len() implies synced1[i]@ == synced2[i]@ by {
        assert(synced1.map_values(|s: String| s@)[i] == synced2.map_values(|s: String| s@)[i]);
    }
    assert forall|i: int| 0 <= i < upstream_walk1.len() implies upstream_walk1[i]@
        == upstream_walk2[i]@ by {
        assert(upstream_walk1.map_values(|c: Vec<u8>| c@)[i] == upstream_walk2.map_values(
            |c: Vec<u8>| c@,
        )[i]);
    }
    assert forall|i: int| 0 <= i < local_walk1.len() implies local_walk1[i]@
        == local_walk2[i]@ by {
        assert(local_walk1.map_values(|c: Vec<u8>| c@)[i] == local_walk2.map_values(
            |c: Vec<u8>| c@,
        )[i]);
    }
    if f1.upstream_remote is Some {
        let r = f1.upstream_remote->0@;
        assert(names_have(synced1, r) == names_have(synced2, r)) by {
            if names_have(synced1, r) {
                let i = choose|i: int| 0 <= i < synced1.len() && (#[trigger] synced1[i])@ == r;
                assert(synced2[i]@ == r);
            }
            if names_have(synced2, r) {
                let i = choose|i: int| 0 <= i < synced2.len() && (#[trigger] synced2[i])@ == r;
                assert(synced1[i]@ == r);
            }
        }
    }
    if f1.commits is Some {
        let l = local_commit(f1);
        let u = upstream_commit(f1);
        assert(walk_has(upstream_walk1, l) == walk_has(upstream_walk2, l)) by {
            if walk_has(upstream_walk1, l) {
                let i = choose|i: int|
                    0 <= i < upstream_walk1.len() && (#[trigger] upstream_walk1[i])@ == l;
                assert(upstream_walk2[i]@ == l);
            }
            if walk_has(upstream_walk2, l) {
                let i = choose|i: int|
                    0 <= i < upstream_walk2.len() && (#[trigger] upstream_walk2[i])@ == l;
                assert(upstream_walk1[i]@ == l);
            }
        }
        assert(walk_has(local_walk1, u) == walk_has(local_walk2, u)) by {
            if walk_has(local_walk1, u) {
                let i = choose|i: int|
                    0 <= i < local_walk1.len() && (#[trigger] local_walk1[i])@ == u;
                assert(local_walk2[i]@ == u);
            }
            if walk_has(local_walk2, u) {
                let i = choose|i: int|
                    0 <= i < local_walk2.len() && (#[trigger] local_walk2[i])@ == u;
                assert(local_walk1[i]@ == u);
            }
        }
    }
}

/// Whether `a` and `b` hold the same bytes.
pub fn bytes_equal(a: &Vec<u8>, b: &Vec<u8>) -> (r: bool)
    ensures
        r == (a@ == b@),
{
    if a.len() != b.len() {
        return false;
    }
    let mut i: usize = 0;
    while i < a.len()
        invariant
            a@.len() == b@.len(),
            0 <= i <= a@.len(),
            forall|j: int| 0 <= j < i ==> a@[j] == b@[j],
        decreases a@.len() - i,
    {
        if a[i] != b[i] {
            return false;
        }
        i = i + 1;
    }
    assert(a@ =~= b@);
    true
}

/// Whether the commit `c` occurs in the walk `walk`: with a walk seeded at a
/// commit, whether `c` is an ancestor of that commit.
pub fn walk_contains(walk: &Vec<CommitId>, c: &CommitId) -> (r: bool)
    ensures
        r == walk_has(walk@, c@),
{
    let mut i: usize = 0;
    while i < walk.len()
        invariant
            0 <= i <= walk@.len(),
            forall|j: int| 0 <= j < i ==> (#[trigger] walk@[j])@ != c@,
        decreases walk@.len() - i,
    {
        if bytes_equal(&walk[i], c) {
            return true;
        }
        i = i + 1;
    }
    false
}

/// Whether `name` is one of `names`.
pub fn contains_name(names: &Vec<String>, name: &String) -> (r: bool)
    ensures
        r == names_have(names@, name@),
{
    let mut i: usize = 0;
    while i < names.len()
        invariant
            0 <= i <= names@.len(),
            forall|j: int| 0 <= j < i ==> (#[trigger] names@[j])@ != name@,
        decreases names@.len() - i,
    {
        if names[i] == *name {
            return true;
        }
        i = i + 1;
    }
    false
}

/// Decides what to do with a branch: the first failing condition gives its
/// status; a branch whose upstream remote was fetched is walked.
pub fn plan_branch(facts: &BranchFacts, synced: &Vec<String>) -> (r: BranchPlan)
    ensures
        r == plan_spec(*facts, synced@),
{
    match &facts.name {
        None => BranchPlan::Finished(SyncStatus::NameUnresolvable),
        Some(_) => {
            if !facts.has_upstream {
                return BranchPlan::Finished(SyncStatus::NoUpstream);
            }
            match &facts.upstream_remote {
                None => BranchPlan::Finished(SyncStatus::NameUnresolvable),
                Some(remote) => {
                    if !contains_name(synced, remote) {
                        BranchPlan::Finished(SyncStatus::UpstreamRemoteNotSynced)
                    } else if facts.commits.is_none() {
                        BranchPlan::BackendError
                    } else {
                        BranchPlan::WalkUpstream
                    }
                },
            }
        },
    }
}

/// The status from the two ancestry questions: contained in the upstream is
/// synced; otherwise containing the upstream is ahead; otherwise diverged.
pub fn classify(local_in_upstream: bool, upstream_in_local: bool) -> (r: SyncStatus)
    ensures
        r == classify_spec(local_in_upstream, upstream_in_local),
{
    if local_in_upstream {
        SyncStatus::Synced
    } else if upstream_in_local {
        SyncStatus::AheadOfUpstream
    } else {
        SyncStatus::Diverged
    }
}

/// Given the walk from the upstream commit: the branch is synced when it
/// holds the local commit; otherwise the local commit is to be walked.
pub fn after_upstream_walk(upstream_walk: &Vec<CommitId>, local: &CommitId) -> (r: AncestryStep)
    ensures
        walk_has(upstream_walk@, local@) ==> r == AncestryStep::Decided(SyncStatus::Synced),
        !walk_has(upstream_walk@, local@) ==> r == AncestryStep::WalkLocal,
{
    if walk_contains(upstream_walk, local) {
        AncestryStep::Decided(SyncStatus::Synced)
    } else {
        AncestryStep::WalkLocal
    }
}

/// Given the walk from the local commit, once the local commit was not found
/// in the upstream's ancestry: ahead when it holds the upstream commit, else
/// diverged.
pub fn after_local_walk(local_walk: &Vec<CommitId>, upstream: &CommitId) -> (r: SyncStatus)
    ensures
        r == classify_spec(false, walk_has(local_walk@, upstream@)),
{
    classify(false, walk_contains(local_walk, upstream))
}

} // verus!
