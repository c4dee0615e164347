use repo_sync_audit::audit::{
    after_local_walk, after_upstream_walk, bytes_equal, classify, contains_name, plan_branch,
    walk_contains, AncestryStep, BranchFacts, BranchPlan, CommitId, SyncStatus,
};
use repo_sync_audit::remote::{
    check_remote, default_prefixes, qualifying_names, RemoteCheck, RemoteFacts,
};

fn commit(b: u8) -> CommitId {
    vec![b; 20]
}

fn facts(remote: &str, local: u8, upstream: u8) -> BranchFacts {
    BranchFacts {
        name: Some("main".to_string()),
        has_upstream: true,
        upstream_error: String::new(),
        upstream_remote: Some(remote.to_string()),
        commits: Some((commit(local), commit(upstream))),
    }
}

/// Drives one branch through the audit, walking from the given histories
/// (each maps a commit to its topological walk).
fn run(f: &BranchFacts, synced: &Vec<String>, walks: &[(u8, Vec<u8>)]) -> Option<SyncStatus> {
    let walk_of = |c: &CommitId| -> Vec<CommitId> {
        let (_, w) = walks.iter().find(|(s, _)| commit(*s) == *c).unwrap();
        w.iter().map(|b| commit(*b)).collect()
    };
    match plan_branch(f, synced) {
        BranchPlan::Finished(s) => Some(s),
        BranchPlan::BackendError => None,
        BranchPlan::WalkUpstream => {
            let (local, upstream) = f.commits.as_ref().unwrap();
            match after_upstream_walk(&walk_of(upstream), local) {
                AncestryStep::Decided(s) => Some(s),
                AncestryStep::WalkLocal => Some(after_local_walk(&walk_of(local), upstream)),
            }
        }
    }
}

fn origin() -> Vec<String> {
    vec!["origin".to_string()]
}

#[test]
fn same_commit_is_synced() {
    let f = facts("origin", 1, 1);
    assert_eq!(run(&f, &origin(), &[(1, vec![1])]), Some(SyncStatus::Synced));
}

#[test]
fn one_local_commit_on_top_is_ahead() {
    // c2 has parent c1; the upstream is still at c1.
    let f = facts("origin", 2, 1);
    let walks = [(1, vec![1]), (2, vec![2, 1])];
    assert_eq!(run(&f, &origin(), &walks), Some(SyncStatus::AheadOfUpstream));
}

#[test]
fn upstream_ahead_of_local_is_synced() {
    let f = facts("origin", 1, 2);
    let walks = [(1, vec![1]), (2, vec![2, 1])];
    assert_eq!(run(&f, &origin(), &walks), Some(SyncStatus::Synced));
}

#[test]
fn each_side_with_own_commit_is_diverged() {
    // c2 and c3 both have parent c1.
    let f = facts("origin", 2, 3);
    let walks = [(2, vec![2, 1]), (3, vec![3, 1])];
    assert_eq!(run(&f, &origin(), &walks), Some(SyncStatus::Diverged));
}

#[test]
fn no_upstream_is_reported_without_walk() {
    let f = BranchFacts {
        name: Some("topic".to_string()),
        has_upstream: false,
        upstream_error: "no upstream configured".to_string(),
        upstream_remote: None,
        commits: None,
    };
    assert_eq!(plan_branch(&f, &origin()), BranchPlan::Finished(SyncStatus::NoUpstream));
}

#[test]
fn unnamed_branch_is_unresolvable() {
    let f = BranchFacts {
        name: None,
        has_upstream: true,
        upstream_error: String::new(),
        upstream_remote: None,
        commits: None,
    };
    assert_eq!(plan_branch(&f, &origin()), BranchPlan::Finished(SyncStatus::NameUnresolvable));
}

#[test]
fn unresolved_upstream_remote_is_unresolvable() {
    let mut f = facts("origin", 1, 1);
    f.upstream_remote = None;
    assert_eq!(plan_branch(&f, &origin()), BranchPlan::Finished(SyncStatus::NameUnresolvable));
}

#[test]
fn failed_fetch_gives_remote_not_synced() {
    // origin failed to fetch: the synced set holds only the other remote.
    let synced = vec!["backup".to_string()];
    for (l, u) in [(1, 1), (2, 1), (2, 3)] {
        let f = facts("origin", l, u);
        assert_eq!(
            plan_branch(&f, &synced),
            BranchPlan::Finished(SyncStatus::UpstreamRemoteNotSynced)
        );
    }
}

#[test]
fn unresolvable_commits_are_a_backend_error() {
    let mut f = facts("origin", 1, 1);
    f.commits = None;
    assert_eq!(plan_branch(&f, &origin()), BranchPlan::BackendError);
}

#[test]
fn gitlab_remote_is_never_fetched() {
    let remotes = vec![RemoteFacts {
        name: Some("origin".to_string()),
        found: true,
        url: Some("https://gitlab.com/x/y.git".to_string()),
    }];
    assert_eq!(check_remote(&remotes[0], &default_prefixes()), RemoteCheck::Unqualified);
    let synced = qualifying_names(&remotes, &default_prefixes());
    assert!(synced.is_empty());
    let f = facts("origin", 1, 1);
    assert_eq!(run(&f, &synced, &[(1, vec![1])]), Some(SyncStatus::UpstreamRemoteNotSynced));
}

#[test]
fn repeated_audit_gives_same_outcomes() {
    let branches = vec![facts("origin", 1, 1), facts("origin", 2, 1), facts("origin", 2, 3)];
    let walks = [(1, vec![1]), (2, vec![2, 1]), (3, vec![3, 1])];
    let first: Vec<_> = branches.iter().map(|f| run(f, &origin(), &walks)).collect();
    let second: Vec<_> = branches.iter().map(|f| run(f, &origin(), &walks)).collect();
    assert_eq!(first, second);
    assert_eq!(
        first,
        vec![
            Some(SyncStatus::Synced),
            Some(SyncStatus::AheadOfUpstream),
            Some(SyncStatus::Diverged)
        ]
    );
}

#[test]
fn classify_covers_each_case() {
    assert_eq!(classify(true, true), SyncStatus::Synced);
    assert_eq!(classify(true, false), SyncStatus::Synced);
    assert_eq!(classify(false, true), SyncStatus::AheadOfUpstream);
    assert_eq!(classify(false, false), SyncStatus::Diverged);
}

#[test]
fn walk_search_and_byte_equality() {
    assert!(bytes_equal(&vec![1, 2], &vec![1, 2]));
    assert!(!bytes_equal(&vec![1, 2], &vec![1, 3]));
    assert!(!bytes_equal(&vec![1], &vec![1, 1]));
    let walk = vec![commit(3), commit(1)];
    assert!(walk_contains(&walk, &commit(1)));
    assert!(!walk_contains(&walk, &commit(2)));
    assert!(!walk_contains(&vec![], &commit(2)));
    assert!(contains_name(&origin(), &"origin".to_string()));
    assert!(!contains_name(&origin(), &"origi".to_string()));
}
