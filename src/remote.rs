use vstd::prelude::*;

use crate::text::has_prefix;
use crate::text::starts_with;

verus! {

/// URL prefix of a GitHub remote reached over HTTPS.
pub const GITHUB_HTTPS: &'static str = "https://github.com/";

/// URL prefix of a GitHub remote reached over SSH.
pub const GITHUB_SSH: &'static str = "git@github.com:";

/// A remote URL qualifies when it starts with one of the trusted prefixes.
pub open spec fn qualifies_spec(url: Seq<char>) -> bool {
    has_prefix(url, GITHUB_HTTPS@) || has_prefix(url, GITHUB_SSH@)
}

/// Whether a remote with this URL is one whose branches count as backed up.
pub fn qualifies(url: &str) -> (r: bool)
    ensures
        r == qualifies_spec(url@),
{
    starts_with(url, GITHUB_HTTPS) || starts_with(url, GITHUB_SSH)
}

/// `url` starts with one of `prefixes`.
pub open spec fn qualifies_in(url: Seq<char>, prefixes: Seq<String>) -> bool {
    exists|i: int| 0 <= i < prefixes.len() && has_prefix(url, (#[trigger] prefixes[i])@)
}

/// The trusted prefixes used when none are configured: GitHub over HTTPS
/// and over SSH.
pub fn default_prefixes() -> (r: Vec<String>)
    ensures
        r@.len() == 2,
        r@[0]@ == GITHUB_HTTPS@,
        r@[1]@ == GITHUB_SSH@,
{
    vec![GITHUB_HTTPS.to_owned(), GITHUB_SSH.to_owned()]
}

/// Whether a remote with this URL is trusted under the configured prefixes.
pub fn qualifies_with(url: &str, prefixes: &Vec<String>) -> (r: bool)
    ensures
        r == qualifies_in(url@, prefixes@),
{
    let mut i: usize = 0;
    while i < prefixes.len()
        invariant
            0 <= i <= prefixes@.len(),
            forall|j: int| 0 <= j < i ==> !has_prefix(url@, (#[trigger] prefixes@[j])@),
        decreases prefixes@.len() - i,
    {
        if starts_with(url, prefixes[i].as_str()) {
            return true;
        }
        i = i + 1;
    }
    false
}

/// Under the default prefixes, a URL qualifies exactly when `qualifies` says so.
pub proof fn lemma_default_prefixes(url: Seq<char>, prefixes: Seq<String>)
    requires
        prefixes.len() == 2,
        prefixes[0]@ == GITHUB_HTTPS@,
        prefixes[1]@ == GITHUB_SSH@,
    ensures
        qualifies_in(url, prefixes) == qualifies_spec(url),
{
    if qualifies_spec(url) {
        if has_prefix(url, GITHUB_HTTPS@) {
            assert(has_prefix(url, prefixes[0]@));
        } else {
            assert(has_prefix(url, prefixes[1]@));
        }
    }
}

/// What the backend reported about one remote of a repository.
pub struct RemoteFacts {
    /// The remote's name; `None` when it is not valid text.
    pub name: Option<String>,
    /// Whether the remote could be looked up by its name.
    pub found: bool,
    /// The remote's URL; `None` when it has none that is valid text.
    pub url: Option<String>,
}

/// The outcome of checking one remote.
#[derive(Clone, Copy, Debug, PartialEq, Eq, Structural)]
pub enum RemoteCheck {
    BadName,
    NotFound,
    NoUrl,
    Unqualified,
    Qualifying,
}

/// The check of one remote: the first failing condition decides.
pub open spec fn check_spec(f: RemoteFacts, prefixes: Seq<String>) -> RemoteCheck {
    if f.name is None {
        RemoteCheck::BadName
    } else if !f.found {
        RemoteCheck::NotFound
    } else if f.url is None {
        RemoteCheck::NoUrl
    } else if qualifies_in(f.url->0@, prefixes) {
        RemoteCheck::Qualifying
    } else {
        RemoteCheck::Unqualified
    }
}

/// Checks one remote: a remote qualifies when it has a name, can be looked
/// up, and has a URL that starts with one of the trusted prefixes.
pub fn check_remote(f: &RemoteFacts, prefixes: &Vec<String>) -> (r: RemoteCheck)
    ensures
        r == check_spec(*f, prefixes@),
{
    match &f.name {
        None => RemoteCheck::BadName,
        Some(_) => {
            if !f.found {
                return RemoteCheck::NotFound;
            }
            match &f.url {
                None => RemoteCheck::NoUrl,
                Some(url) => {
                    if qualifies_with(url.as_str(), prefixes) {
                        RemoteCheck::Qualifying
                    } else {
                        RemoteCheck::Unqualified
                    }
                },
            }
        },
    }
}

/// The names of the qualifying remotes among `rs`, in their order.
pub open spec fn qualifying_spec(rs: Seq<RemoteFacts>, prefixes: Seq<String>) -> Seq<Seq<char>>
    decreases rs.len(),
{
    if rs.len() == 0 {
        Seq::empty()
    } else {
        let last = rs.last();
        let front = qualifying_spec(rs.drop_last(), prefixes);
        if check_spec(last, prefixes) == RemoteCheck::Qualifying {
            front.push(last.name->0@)
        } else {
            front
        }
    }
}

/// The names of the remotes that qualify, in the order given; the others
/// are left out without affecting their siblings.
pub fn qualifying_names(rs: &Vec<RemoteFacts>, prefixes: &Vec<String>) -> (r: Vec<String>)
    ensures
        r@.map_values(|s: String| s@) == qualifying_spec(rs@, prefixes@),
{
    let mut r: Vec<String> = Vec::new();
    let mut i: usize = 0;
    while i < rs.len()
        invariant
            0 <= i <= rs@.len(),
            r@.map_values(|s: String| s@) == qualifying_spec(rs@.subrange(0, i as int), prefixes@),
        decreases rs@.len() - i,
    {
        let ghost before = r@;
        assert(rs@.subrange(0, i + 1).drop_last() =~= rs@.subrange(0, i as int));
        if check_remote(&rs[i], prefixes) == RemoteCheck::Qualifying {
            match &rs[i].name {
                Some(n) => {
                    r.push(n.clone());
                    assert(r@.map_values(|s: String| s@) =~= before.map_values(
                        |s: String| s@,
                    ).push(n@));
                },
                None => {},
            }
        }
        i = i + 1;
    }
    assert(rs@.subrange(0, rs@.len() as int) =~= rs@);
    r
}

/// How a fetch authenticates.
#[derive(Debug, PartialEq, Eq)]
pub enum Credential {
    /// A bare user name, for a challenge that asks for nothing more.
    UsernameOnly(String),
    /// Public-key authentication as this user with the private key at this path.
    SshPrivateKey(String, String),
}

/// The user to authenticate as: the one in the URL, else the default.
pub open spec fn user_spec(user_from_url: Option<String>, default_user: String) -> Seq<char> {
    match user_from_url {
        Some(u) => u@,
        None => default_user@,
    }
}

/// Chooses the credential for an authentication challenge: a bare user name
/// where the challenge allows it, else the SSH private key.
pub fn choose_credential(
    username_only: bool,
    user_from_url: Option<String>,
    default_user: String,
    key_path: String,
) -> (r: Credential)
    ensures
        username_only ==> (r matches Credential::UsernameOnly(u) && u@ == user_spec(
            user_from_url,
            default_user,
        )),
        !username_only ==> (r matches Credential::SshPrivateKey(u, k) && u@ == user_spec(
            user_from_url,
            default_user,
        ) && k@ == key_path@),
{
    let user = match user_from_url {
        Some(u) => u,
        None => default_user,
    };
    if username_only {
        Credential::UsernameOnly(user)
    } else {
        Credential::SshPrivateKey(user, key_path)
    }
}

} // verus!
