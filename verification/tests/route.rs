use ponte::openwiki::{OpenWikiOutcome, RunMode};
use ponte::route::{
    contains_chars, ensure_pointer, pointer_block, route, should_route, RouteOutcome, POINTER_MARKER,
};

fn ran() -> Option<OpenWikiOutcome> {
    Some(OpenWikiOutcome::Ran { mode: RunMode::Init, stdout_tail: String::new() })
}

#[test]
fn skips_when_upstream_skipped() {
    let u = route(&Some(OpenWikiOutcome::Skipped), "# My repo\n");
    assert!(matches!(u.outcome, RouteOutcome::Skipped));
    assert!(u.new_contents.is_none());
}

#[test]
fn skips_when_upstream_missing() {
    let u = route(&None, "");
    assert!(matches!(u.outcome, RouteOutcome::Skipped));
    assert!(u.new_contents.is_none());
}

#[test]
fn adds_pointer_when_absent() {
    let u = route(&ran(), "# My repo\n");
    assert!(matches!(u.outcome, RouteOutcome::PointerAdded));
    let contents = u.new_contents.unwrap();
    assert!(contents.contains("openwiki/quickstart.md"));
    assert!(contents.contains("# My repo"));
    assert!(contents.starts_with("# My repo\n"));
}

#[test]
fn creates_claude_md_when_absent() {
    let u = route(&ran(), "");
    assert!(matches!(u.outcome, RouteOutcome::PointerAdded));
    assert_eq!(u.new_contents.unwrap(), pointer_block());
}

#[test]
fn second_run_is_idempotent_and_never_duplicates_pointer() {
    let first = route(&ran(), "# My repo\n").new_contents.unwrap();
    let second = route(&ran(), &first);
    assert!(matches!(second.outcome, RouteOutcome::PointerAlreadyPresent));
    assert!(second.new_contents.is_none());
    assert_eq!(first.matches(POINTER_MARKER).count(), 2);
}

#[test]
fn pointer_block_exact_text() {
    assert_eq!(
        pointer_block(),
        format!(
            "\n{m}\n## Generated documentation\n\nOpenWiki-generated docs for this repo live under [`openwiki/`](./openwiki/quickstart.md) \u{2014} start at `openwiki/quickstart.md`.\n{m}\n",
            m = POINTER_MARKER
        )
    );
}

#[test]
fn marker_anywhere_counts_as_present() {
    let text = format!("intro\n{}\nrest", POINTER_MARKER);
    let u = ensure_pointer(&text);
    assert!(matches!(u.outcome, RouteOutcome::PointerAlreadyPresent));
    assert!(u.new_contents.is_none());
    let partial = "<!-- ponte:openwiki-pointer --";
    assert!(matches!(ensure_pointer(partial).outcome, RouteOutcome::PointerAdded));
}

#[test]
fn contains_chars_finds_runs() {
    let hay: Vec<char> = "abcabd".chars().collect();
    assert!(contains_chars(&hay, &"abd".chars().collect()));
    assert!(!contains_chars(&hay, &"abe".chars().collect()));
    assert!(contains_chars(&hay, &Vec::new()));
    assert!(!contains_chars(&Vec::new(), &"a".chars().collect()));
}

#[test]
fn only_a_run_is_routed() {
    assert!(should_route(&ran()));
    assert!(!should_route(&Some(OpenWikiOutcome::Skipped)));
    assert!(!should_route(&None));
}
