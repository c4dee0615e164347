use vstd::prelude::*;
use vstd::string::StringExecFns;

use crate::audit::BranchFacts;
use crate::audit::SyncStatus;
use crate::remote::RemoteCheck;
use crate::text::concat3;
use crate::text::concat5;

verus! {

/// Text of the diagnostic for an error that no named case covers.
pub const UNEXPECTED_GENERAL_ENTRY_ERROR: &'static str =
    "Something unexpectedly failed for the current entry";

/// Collects, in order, the messages about the entry being processed.
/// Informational messages are kept only in verbose mode.
pub struct Printer {
    pub verbose: bool,
    pub messages: Vec<String>,
}

/// The severity tag of a branch status's message.
pub open spec fn status_tag(s: SyncStatus) -> Seq<char> {
    match s {
        SyncStatus::Synced => "[info] "@,
        SyncStatus::NoUpstream => "[critical] "@,
        _ => "[error] "@,
    }
}

/// What a branch status's message says of the branch.
pub open spec fn status_text(s: SyncStatus) -> Seq<char> {
    match s {
        SyncStatus::Synced => " is synced with the remote"@,
        SyncStatus::AheadOfUpstream => " is ahead of the upstream"@,
        SyncStatus::Diverged => " is not in the ancestor of the upstream"@,
        SyncStatus::NoUpstream => " has no remote tracking branch"@,
        SyncStatus::UpstreamRemoteNotSynced => " tracks a remote that was not fetched"@,
        SyncStatus::NameUnresolvable => " has a name or upstream remote that cannot be resolved"@,
    }
}

/// The severity tag of a remote check's message.
pub open spec fn remote_tag(c: RemoteCheck) -> Seq<char> {
    match c {
        RemoteCheck::Unqualified => "[warning] "@,
        RemoteCheck::Qualifying => "[info] "@,
        _ => "[error] "@,
    }
}

/// What a remote check's message says of the remote.
pub open spec fn remote_text(c: RemoteCheck) -> Seq<char> {
    match c {
        RemoteCheck::BadName => " skipped due to a name that is not valid text"@,
        RemoteCheck::NotFound => " not found"@,
        RemoteCheck::NoUrl => " has no valid url"@,
        RemoteCheck::Unqualified => " is not a qualifying remote"@,
        RemoteCheck::Qualifying => " qualifies"@,
    }
}

/// The message on a symlinked entry.
pub open spec fn symlink_message(path: Seq<char>) -> Seq<char> {
    "[warning] Found symlink: "@ + path
        + ". Ignoring this entry, as at the time of making this tool, I have never made symlinks in there, so I don't know what it means semantically."@
}

/// The message on a plain file.
pub open spec fn file_message(path: Seq<char>) -> Seq<char> {
    "[error] Found file: "@ + path
        + ". Files are unlikely to be git-pushed; move them somewhere safe if necessary."@
}

/// The message on a directory that is not a repository.
pub open spec fn nongit_message(path: Seq<char>, msg: Seq<char>) -> Seq<char> {
    "[error] "@ + msg + ": "@ + path + ". This is not a git repository."@
}

/// The message on an error that no named case covers.
pub open spec fn general_error_message(error: Seq<char>) -> Seq<char> {
    "[critical] "@ + UNEXPECTED_GENERAL_ENTRY_ERROR@ + ": "@ + error
}

/// The message on a failed fetch.
pub open spec fn fetch_failed_message(entry: Seq<char>, remote: Seq<char>, error: Seq<char>) -> Seq<
    char,
> {
    "[error] "@ + entry + ": Failed to fetch remote "@ + remote + ": "@ + error
}

/// The message on a branch's status.
pub open spec fn status_message(entry: Seq<char>, branch: Seq<char>, s: SyncStatus) -> Seq<char> {
    status_tag(s) + entry + ": Local branch "@ + branch + status_text(s)
}

/// The message on a remote's check.
pub open spec fn remote_message(entry: Seq<char>, remote: Seq<char>, c: RemoteCheck) -> Seq<char> {
    remote_tag(c) + entry + ": Remote "@ + remote + remote_text(c)
}

/// The name of a branch as its messages show it.
pub open spec fn name_of(f: BranchFacts) -> Seq<char> {
    match f.name {
        Some(n) => n@,
        None => ""@,
    }
}

/// The remote of a branch's upstream as its messages show it.
pub open spec fn remote_of(f: BranchFacts) -> Seq<char> {
    match f.upstream_remote {
        Some(r) => r@,
        None => ""@,
    }
}

/// The message on a branch without an upstream, with the backend's reason.
pub open spec fn no_upstream_message(entry: Seq<char>, branch: Seq<char>, error: Seq<char>) -> Seq<
    char,
> {
    "[critical] "@ + entry + ": Local branch "@ + branch + " has no remote tracking branch: "@
        + error
}

/// The message on a branch whose upstream remote was not fetched.
pub open spec fn not_fetched_message(entry: Seq<char>, branch: Seq<char>, remote: Seq<char>) -> Seq<
    char,
> {
    "[error] "@ + entry + ": Branch "@ + branch + " has non-fetched remote "@ + remote
}

/// The message on a branch's final status.
pub open spec fn outcome_message(entry: Seq<char>, f: BranchFacts, s: SyncStatus) -> Seq<char> {
    match s {
        SyncStatus::NoUpstream => no_upstream_message(entry, name_of(f), f.upstream_error@),
        SyncStatus::UpstreamRemoteNotSynced => not_fetched_message(entry, name_of(f), remote_of(f)),
        _ => status_message(entry, name_of(f), s),
    }
}

/// The verbose message naming a branch's upstream.
pub open spec fn upstream_name_message(entry: Seq<char>, branch: Seq<char>, upstream: Seq<char>) -> Seq<
    char,
> {
    "[info] "@ + entry + ": Branch "@ + branch + " has upstream "@ + upstream
}

/// The verbose message naming the remote of a branch's upstream.
pub open spec fn upstream_remote_message(entry: Seq<char>, branch: Seq<char>, remote: Seq<char>) -> Seq<
    char,
> {
    "[info] "@ + entry + ": Branch "@ + branch + " has upstream remote "@ + remote
}

/// Six pieces one after the other.
fn line6(a: &str, b: &str, c: &str, d: &str, e: &str, f: &str) -> (r: String)
    ensures
        r@ == a@ + b@ + c@ + d@ + e@ + f@,
{
    let mut r = concat5(a, b, c, d, e);
    r.append(f);
    r
}

fn name_str(f: &BranchFacts) -> (r: &str)
    ensures
        r@ == name_of(*f),
{
    match &f.name {
        Some(n) => n.as_str(),
        None => "",
    }
}

fn remote_str(f: &BranchFacts) -> (r: &str)
    ensures
        r@ == remote_of(*f),
{
    match &f.upstream_remote {
        Some(n) => n.as_str(),
        None => "",
    }
}

fn status_tag_str(s: SyncStatus) -> (r: &'static str)
    ensures
        r@ == status_tag(s),
{
    match s {
        SyncStatus::Synced => "[info] ",
        SyncStatus::NoUpstream => "[critical] ",
        _ => "[error] ",
    }
}

fn status_text_str(s: SyncStatus) -> (r: &'static str)
    ensures
        r@ == status_text(s),
{
    match s {
        SyncStatus::Synced => " is synced with the remote",
        SyncStatus::AheadOfUpstream => " is ahead of the upstream",
        SyncStatus::Diverged => " is not in the ancestor of the upstream",
        SyncStatus::NoUpstream => " has no remote tracking branch",
        SyncStatus::UpstreamRemoteNotSynced => " tracks a remote that was not fetched",
        SyncStatus::NameUnresolvable => " has a name or upstream remote that cannot be resolved",
    }
}

fn remote_tag_str(c: RemoteCheck) -> (r: &'static str)
    ensures
        r@ == remote_tag(c),
{
    match c {
        RemoteCheck::Unqualified => "[warning] ",
        RemoteCheck::Qualifying => "[info] ",
        _ => "[error] ",
    }
}

fn remote_text_str(c: RemoteCheck) -> (r: &'static str)
    ensures
        r@ == remote_text(c),
{
    match c {
        RemoteCheck::BadName => " skipped due to a name that is not valid text",
        RemoteCheck::NotFound => " not found",
        RemoteCheck::NoUrl => " has no valid url",
        RemoteCheck::Unqualified => " is not a qualifying remote",
        RemoteCheck::Qualifying => " qualifies",
    }
}

impl Printer {
    /// The messages collected so far, as text.
    pub open spec fn lines(&self) -> Seq<Seq<char>> {
        self.messages@.map_values(|m: String| m@)
    }

    pub fn new(verbose: bool) -> (r: Self)
        ensures
            r.verbose == verbose,
            r.lines() == Seq::<Seq<char>>::empty(),
    {
        let r = Printer { verbose, messages: Vec::new() };
        assert(r.lines() =~= Seq::<Seq<char>>::empty());
        r
    }

    fn push(&mut self, m: String)
        ensures
            final(self).verbose == old(self).verbose,
            final(self).lines() == old(self).lines().push(m@),
    {
        let ghost before = self.messages@;
        self.messages.push(m);
        assert(self.messages@.map_values(|m: String| m@) =~= before.map_values(
            |m: String| m@,
        ).push(self.messages@.last()@));
    }

    pub fn msg_symlink(path: &str) -> (r: String)
        ensures
            r@ == symlink_message(path@),
    {
        concat3(
            "[warning] Found symlink: ",
            path,
            ". Ignoring this entry, as at the time of making this tool, I have never made symlinks in there, so I don't know what it means semantically.",
        )
    }

    pub fn log_symlink(&mut self, path: &str)
        ensures
            final(self).verbose == old(self).verbose,
            final(self).lines() == old(self).lines().push(symlink_message(path@)),
    {
        self.push(Self::msg_symlink(path));
    }

    pub fn msg_file(path: &str) -> (r: String)
        ensures
            r@ == file_message(path@),
    {
        concat3(
            "[error] Found file: ",
            path,
            ". Files are unlikely to be git-pushed; move them somewhere safe if necessary.",
        )
    }

    pub fn log_file(&mut self, path: &str)
        ensures
            final(self).verbose == old(self).verbose,
            final(self).lines() == old(self).lines().push(file_message(path@)),
    {
        self.push(Self::msg_file(path));
    }

    pub fn msg_nongit_dir(path: &str, msg: &str) -> (r: String)
        ensures
            r@ == nongit_message(path@, msg@),
    {
        concat5("[error] ", msg, ": ", path, ". This is not a git repository.")
    }

    pub fn log_nongit_dir(&mut self, path: &str, msg: &str)
        ensures
            final(self).verbose == old(self).verbose,
            final(self).lines() == old(self).lines().push(nongit_message(path@, msg@)),
    {
        self.push(Self::msg_nongit_dir(path, msg));
    }

    pub fn msg_general_entry_error(error: &str) -> (r: String)
        ensures
            r@ == general_error_message(error@),
    {
        let mut r = concat3("[critical] ", UNEXPECTED_GENERAL_ENTRY_ERROR, ": ");
        r.append(error);
        r
    }

    pub fn log_general_entry_error(&mut self, error: &str)
        ensures
            final(self).verbose == old(self).verbose,
            final(self).lines() == old(self).lines().push(general_error_message(error@)),
    {
        self.push(Self::msg_general_entry_error(error));
    }

    /// The message on a branch's status.
    pub fn msg_branch_status(entry: &str, branch: &str, s: SyncStatus) -> (r: String)
        ensures
            r@ == status_message(entry@, branch@, s),
    {
        concat5(status_tag_str(s), entry, ": Local branch ", branch, status_text_str(s))
    }

    /// Records a branch's status; every status is always reported.
    pub fn log_branch_status(&mut self, entry: &str, branch: &str, s: SyncStatus)
        ensures
            final(self).verbose == old(self).verbose,
            final(self).lines() == old(self).lines().push(status_message(entry@, branch@, s)),
    {
        self.push(Self::msg_branch_status(entry, branch, s));
    }

    /// The message on a branch's final status.
    pub fn msg_branch_outcome(entry: &str, f: &BranchFacts, s: SyncStatus) -> (r: String)
        ensures
            r@ == outcome_message(entry@, *f, s),
    {
        match s {
            SyncStatus::NoUpstream => line6(
                "[critical] ",
                entry,
                ": Local branch ",
                name_str(f),
                " has no remote tracking branch: ",
                f.upstream_error.as_str(),
            ),
            SyncStatus::UpstreamRemoteNotSynced => line6(
                "[error] ",
                entry,
                ": Branch ",
                name_str(f),
                " has non-fetched remote ",
                remote_str(f),
            ),
            _ => Self::msg_branch_status(entry, name_str(f), s),
        }
    }

    /// Records a branch's final status; every status is always reported.
    pub fn log_branch_outcome(&mut self, entry: &str, f: &BranchFacts, s: SyncStatus)
        ensures
            final(self).verbose == old(self).verbose,
            final(self).lines() == old(self).lines().push(outcome_message(entry@, *f, s)),
    {
        self.push(Self::msg_branch_outcome(entry, f, s));
    }

    /// Records, in verbose mode only, the upstream of a branch.
    pub fn log_branch_upstream_name(&mut self, entry: &str, branch: &str, upstream: &str)
        ensures
            final(self).verbose == old(self).verbose,
            final(self).lines() == if old(self).verbose {
                old(self).lines().push(upstream_name_message(entry@, branch@, upstream@))
            } else {
                old(self).lines()
            },
    {
        if self.verbose {
            self.push(line6("[info] ", entry, ": Branch ", branch, " has upstream ", upstream));
        }
    }

    /// Records, in verbose mode only, the remote of a branch's upstream.
    pub fn log_branch_upstream_remote_name(&mut self, entry: &str, branch: &str, remote: &str)
        ensures
            final(self).verbose == old(self).verbose,
            final(self).lines() == if old(self).verbose {
                old(self).lines().push(upstream_remote_message(entry@, branch@, remote@))
            } else {
                old(self).lines()
            },
    {
        if self.verbose {
            self.push(
                line6("[info] ", entry, ": Branch ", branch, " has upstream remote ", remote),
            );
        }
    }

    /// The message on a remote's check.
    pub fn msg_remote_check(entry: &str, remote: &str, c: RemoteCheck) -> (r: String)
        ensures
            r@ == remote_message(entry@, remote@, c),
    {
        concat5(remote_tag_str(c), entry, ": Remote ", remote, remote_text_str(c))
    }

    /// Records a remote's check: problems always, a qualifying remote only in
    /// verbose mode.
    pub fn log_remote_check(&mut self, entry: &str, remote: &str, c: RemoteCheck)
        ensures
            final(self).verbose == old(self).verbose,
            final(self).lines() == if c == RemoteCheck::Qualifying && !old(self).verbose {
                old(self).lines()
            } else {
                old(self).lines().push(remote_message(entry@, remote@, c))
            },
    {
        if c == RemoteCheck::Qualifying && !self.verbose {
            return;
        }
        self.push(Self::msg_remote_check(entry, remote, c));
    }

    pub fn msg_fetch_failed(entry: &str, remote: &str, error: &str) -> (r: String)
        ensures
            r@ == fetch_failed_message(entry@, remote@, error@),
    {
        let mut r = concat5("[error] ", entry, ": Failed to fetch remote ", remote, ": ");
        r.append(error);
        r
    }

    /// Records a failed fetch, with the remote and the backend's error text.
    pub fn log_fetch_failed(&mut self, entry: &str, remote: &str, error: &str)
        ensures
            final(self).verbose == old(self).verbose,
            final(self).lines() == old(self).lines().push(fetch_failed_message(entry@, remote@, error@)),
    {
        self.push(Self::msg_fetch_failed(entry, remote, error));
    }

    /// Records an informational message, kept only in verbose mode.
    pub fn log_info(&mut self, entry: &str, text: &str)
        ensures
            final(self).verbose == old(self).verbose,
            final(self).lines() == if old(self).verbose {
                old(self).lines().push("[info] "@ + entry@ + ": "@ + text@)
            } else {
                old(self).lines()
            },
    {
        if self.verbose {
            let mut m = concat3("[info] ", entry, ": ");
            m.append(text);
            self.push(m);
        }
    }

    /// Records a message as it is given.
    pub fn simple_log(&mut self, message: &str)
        ensures
            final(self).verbose == old(self).verbose,
            final(self).lines() == old(self).lines().push(message@),
    {
        self.push(message.to_owned());
    }

    /// Hands over the collected messages, in the order they were recorded.
    pub fn into_messages(self) -> (r: Vec<String>)
        ensures
            r@.map_values(|m: String| m@) == self.lines(),
    {
        self.messages
    }
}

} // verus!
