use repo_sync_audit::remote::{
    check_remote, choose_credential, default_prefixes, qualifies, qualifies_with,
    qualifying_names, Credential, RemoteCheck, RemoteFacts,
};
use repo_sync_audit::scan::{entry_action, EntryAction};
use repo_sync_audit::text::{concat3, concat5, starts_with, str_eq};

fn remote(name: Option<&str>, found: bool, url: Option<&str>) -> RemoteFacts {
    RemoteFacts { name: name.map(String::from), found, url: url.map(String::from) }
}

#[test]
fn github_urls_qualify() {
    assert!(qualifies("https://github.com/org/repo.git"));
    assert!(!qualifies("https://gitlab.com/org/repo.git"));
    assert!(qualifies("git@github.com:org/repo.git"));
}

#[test]
fn qualification_is_a_case_sensitive_prefix() {
    assert!(!qualifies("https://GitHub.com/org/repo.git"));
    assert!(!qualifies("http://github.com/org/repo.git"));
    assert!(!qualifies(" https://github.com/org/repo.git"));
    assert!(!qualifies("https://github.com"));
    assert!(qualifies("https://github.com/"));
    assert!(!qualifies(""));
}

#[test]
fn each_remote_failure_is_its_own_check() {
    assert_eq!(check_remote(&remote(None, true, Some("git@github.com:a/b")), &default_prefixes()), RemoteCheck::BadName);
    assert_eq!(check_remote(&remote(Some("o"), false, Some("git@github.com:a/b")), &default_prefixes()), RemoteCheck::NotFound);
    assert_eq!(check_remote(&remote(Some("o"), true, None), &default_prefixes()), RemoteCheck::NoUrl);
    assert_eq!(check_remote(&remote(Some("o"), true, Some("ssh://x/y")), &default_prefixes()), RemoteCheck::Unqualified);
    assert_eq!(check_remote(&remote(Some("o"), true, Some("git@github.com:a/b")), &default_prefixes()), RemoteCheck::Qualifying);
}

#[test]
fn bad_remotes_do_not_stop_their_siblings() {
    let rs = vec![
        remote(None, true, Some("https://github.com/a/b")),
        remote(Some("origin"), true, Some("https://github.com/a/b")),
        remote(Some("gone"), false, None),
        remote(Some("lab"), true, Some("https://gitlab.com/a/b")),
        remote(Some("mirror"), true, Some("git@github.com:a/b")),
    ];
    assert_eq!(qualifying_names(&rs, &default_prefixes()), vec!["origin".to_string(), "mirror".to_string()]);
}

#[test]
fn credential_prefers_url_user() {
    assert_eq!(
        choose_credential(true, Some("git".to_string()), "me".to_string(), "/k".to_string()),
        Credential::UsernameOnly("git".to_string())
    );
    assert_eq!(
        choose_credential(true, None, "me".to_string(), "/k".to_string()),
        Credential::UsernameOnly("me".to_string())
    );
    assert_eq!(
        choose_credential(false, Some("git".to_string()), "me".to_string(), "/k".to_string()),
        Credential::SshPrivateKey("git".to_string(), "/k".to_string())
    );
}

#[test]
fn symlinks_are_never_opened() {
    assert_eq!(entry_action(true, false), EntryAction::ReportSymlink);
    assert_eq!(entry_action(true, true), EntryAction::ReportSymlink);
    assert_eq!(entry_action(false, true), EntryAction::ReportFile);
    assert_eq!(entry_action(false, false), EntryAction::OpenRepository);
}

#[test]
fn text_helpers() {
    assert!(starts_with("abc", "ab"));
    assert!(starts_with("abc", ""));
    assert!(!starts_with("ab", "abc"));
    assert!(str_eq("é", "é"));
    assert!(!str_eq("ab", "abc"));
    assert_eq!(concat3("a", "b", "c"), "abc");
    assert_eq!(concat5("a", "b", "c", "d", "e"), "abcde");
}

#[test]
fn configured_prefixes_replace_the_default() {
    let gitlab = vec!["https://gitlab.com/".to_string()];
    assert!(qualifies_with("https://gitlab.com/org/repo.git", &gitlab));
    assert!(!qualifies_with("https://github.com/org/repo.git", &gitlab));
    assert!(!qualifies_with("https://github.com/org/repo.git", &vec![]));
    assert!(qualifies_with("git@github.com:org/repo.git", &default_prefixes()));
    let r = remote(Some("origin"), true, Some("https://gitlab.com/x/y.git"));
    assert_eq!(check_remote(&r, &gitlab), RemoteCheck::Qualifying);
    assert_eq!(qualifying_names(&vec![r], &gitlab), vec!["origin".to_string()]);
}
