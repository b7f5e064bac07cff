use ponte::state::{audit_path, join, ponte_home, repo_name, repo_slug, state_dir, state_path};

#[test]
fn slug_replaces_non_alphanumeric() {
    let slug = repo_slug("/tmp/does-not-exist-xyz/my repo!");
    assert!(!slug.contains('/'));
    assert!(!slug.contains(' '));
    assert!(!slug.contains('!'));
}

#[test]
fn slug_exact_value() {
    assert_eq!(repo_slug("/tmp/does-not-exist-xyz/my repo!"), "tmp-does-not-exist-xyz-my-repo");
    assert_eq!(repo_slug("/home/u/src/ponte"), "home-u-src-ponte");
}

#[test]
fn slug_trims_dashes_at_both_ends() {
    assert_eq!(repo_slug("--a--"), "a");
    assert_eq!(repo_slug("///"), "");
    assert_eq!(repo_slug(""), "");
    assert_eq!(repo_slug("!x!"), "x");
}

#[test]
fn slug_maps_non_ascii_to_dash() {
    assert_eq!(repo_slug("/r\u{e9}po/caf\u{e9}"), "r-po-caf");
}

#[test]
fn slug_is_idempotent() {
    let once = repo_slug("/tmp/a b/c.d");
    assert_eq!(repo_slug(&once), once);
}

#[test]
fn join_follows_path_push() {
    assert_eq!(join("/state", "x.json"), "/state/x.json");
    assert_eq!(join("/state/", "x.json"), "/state/x.json");
    assert_eq!(join("", "x.json"), "x.json");
    assert_eq!(join("/state", "/abs"), "/abs");
}

#[test]
fn state_path_is_slug_json_in_dir() {
    assert_eq!(
        state_path("/home/u/.ponte/state", "/tmp/ponte-test-repo-roundtrip"),
        "/home/u/.ponte/state/tmp-ponte-test-repo-roundtrip.json"
    );
}

#[test]
fn two_repos_get_distinct_state_paths() {
    let a = state_path("/s", "/tmp/ponte-test-repo-a");
    let b = state_path("/s", "/tmp/ponte-test-repo-b");
    assert_ne!(a, b);
}

#[test]
fn ponte_home_defaults_to_cwd() {
    assert_eq!(ponte_home(Some("/home/u")), "/home/u/.ponte");
    assert_eq!(ponte_home(None), "./.ponte");
}

#[test]
fn state_dir_and_audit_path_under_home() {
    assert_eq!(state_dir("/home/u/.ponte"), "/home/u/.ponte/state");
    assert_eq!(audit_path("/home/u/.ponte", "/srv/my repo"), "/home/u/.ponte/audit/srv-my-repo.jsonl");
}

#[test]
fn repo_name_is_last_component_or_unknown() {
    assert_eq!(repo_name("/home/u/src/ponte"), "ponte");
    assert_eq!(repo_name("/srv/my repo/"), "my repo");
    assert_eq!(repo_name("/"), "unknown");
    assert_eq!(repo_name(""), "unknown");
    assert_eq!(repo_name("/a/.."), "unknown");
    assert_eq!(repo_name("/a/b/."), "b");
    assert_eq!(repo_name("/a//b//"), "b");
    assert_eq!(repo_name("."), "unknown");
    assert_eq!(repo_name("./."), "unknown");
    assert_eq!(repo_name("/."), "unknown");
    assert_eq!(repo_name("repo"), "repo");
}
