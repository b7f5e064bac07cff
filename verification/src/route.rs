//! Routing of OpenWiki's generated `openwiki/` docs into the target
//! repository's agent notes file (the instructions file that coding
//! agents read at the repository root): a small pointer section, never a copy of
//! OpenWiki's own content.
//!
//! The pointer section is delimited by a marker line on both sides. It is
//! appended once; a notes file that already holds the marker is left as
//! it is. The caller reads the file (a missing or unreadable one reads as
//! empty) and writes back what `ensure_pointer` returns.

use vstd::prelude::*;
use crate::openwiki::OpenWikiOutcome;
use crate::text::{chars_of, contains_seq, lemma_contains_placed};

verus! {

/// The line that opens and closes ponte's pointer section.
pub const POINTER_MARKER: &'static str = "<!-- ponte:openwiki-pointer -->";

/// The text between the two marker lines of the pointer section.
pub const POINTER_BODY: &'static str = "\n## Generated documentation\n\nOpenWiki-generated docs for this repo live under [`openwiki/`](./openwiki/quickstart.md) \u{2014} start at `openwiki/quickstart.md`.\n";

/// What routing did.
#[derive(Clone, Copy, Debug, PartialEq, Eq, Structural)]
pub enum RouteOutcome {
    /// The upstream invocation was skipped, missing, or failed: nothing
    /// to route, and a partial doc is never routed.
    Skipped,
    PointerAdded,
    PointerAlreadyPresent,
}

/// Why routing failed.
#[derive(Debug)]
pub enum RouteError {
    /// Reading or writing the notes file failed.
    Io(std::io::Error),
}

/// The result of reconciling one notes file: what happened, and the new
/// contents to write, if any.
#[derive(Clone, Debug)]
pub struct PointerUpdate {
    pub outcome: RouteOutcome,
    pub new_contents: Option<String>,
}

/// The pointer section appended to the notes file.
pub open spec fn spec_pointer_block() -> Seq<char> {
    "\n"@ + POINTER_MARKER@ + POINTER_BODY@ + POINTER_MARKER@ + "\n"@
}

/// The notes file holds ponte's pointer section.
pub open spec fn has_pointer(text: Seq<char>) -> bool {
    contains_seq(text, POINTER_MARKER@)
}

/// The outcome of reconciling a notes file that reads `existing`.
pub open spec fn spec_route_outcome(existing: Seq<char>) -> RouteOutcome {
    if has_pointer(existing) {
        RouteOutcome::PointerAlreadyPresent
    } else {
        RouteOutcome::PointerAdded
    }
}

/// The contents of the notes file after reconciling one that reads `existing`.
pub open spec fn spec_routed_contents(existing: Seq<char>) -> Seq<char> {
    if has_pointer(existing) {
        existing
    } else {
        existing + spec_pointer_block()
    }
}

/// The pointer section: a newline, the marker, the pointer text, the
/// marker again, and a newline.
pub fn pointer_block() -> (block: String)
    ensures
        block@ == spec_pointer_block(),
{
    let mut block = String::from_str("\n");
    block.append(POINTER_MARKER);
    block.append(POINTER_BODY);
    block.append(POINTER_MARKER);
    block.append("\n");
    block
}

/// Whether `needle` occurs in `hay`.
pub fn contains_chars(hay: &Vec<char>, needle: &Vec<char>) -> (found: bool)
    ensures
        found == contains_seq(hay@, needle@),
{
    let n = hay.len();
    let m = needle.len();
    if m > n {
        return false;
    }
    let mut i: usize = 0;
    while i <= n - m
        invariant
            n == hay@.len(),
            m == needle@.len(),
            m <= n,
            i <= n - m + 1,
            forall|k: int| 0 <= k < i ==> #[trigger] hay@.subrange(k, k + m) != needle@,
        decreases n - m + 1 - i,
    {
        let mut j: usize = 0;
        let mut same = true;
        while j < m
            invariant
                n == hay@.len(),
                m == needle@.len(),
                i + m <= n,
                j <= m,
                same == (forall|l: int| 0 <= l < j ==> hay@[i + l] == needle@[l]),
            decreases m - j,
        {
            if hay[i + j] != needle[j] {
                same = false;
            }
            j = j + 1;
        }
        if same {
            assert(hay@.subrange(i as int, i + m) =~= needle@);
            return true;
        }
        assert(hay@.subrange(i as int, i + m) != needle@) by {
            let l = choose|l: int| 0 <= l < m && hay@[i + l] != needle@[l];
            assert(hay@.subrange(i as int, i + m)[l] == hay@[i + l]);
        }
        i = i + 1;
    }
    assert forall|k: int|
        0 <= k && k + needle@.len() <= hay@.len() implies #[trigger] hay@.subrange(k, k + needle@.len()) != needle@ by {
        assert(k < i);
    }
    false
}

/// Reconciles a notes file that reads `existing`: when it already holds
/// the pointer marker nothing is written; otherwise the pointer section is
/// appended to the existing text, which is kept as it is.
pub fn ensure_pointer(existing: &str) -> (u: PointerUpdate)
    ensures
        u.outcome == spec_route_outcome(existing@),
        has_pointer(existing@) ==> u.new_contents is None,
        !has_pointer(existing@) ==> (u.new_contents matches Some(c) && c@ == spec_routed_contents(existing@)),
{
    let text = chars_of(existing);
    let marker = chars_of(POINTER_MARKER);
    if contains_chars(&text, &marker) {
        return PointerUpdate { outcome: RouteOutcome::PointerAlreadyPresent, new_contents: None };
    }
    let mut updated = String::from_str(existing);
    let block = pointer_block();
    updated.append(block.as_str());
    PointerUpdate { outcome: RouteOutcome::PointerAdded, new_contents: Some(updated) }
}

/// Whether the upstream outcome calls for routing: only a completed
/// openwiki run does; a skipped or missing one routes nothing.
pub fn should_route(upstream: &Option<OpenWikiOutcome>) -> (r: bool)
    ensures
        r == (upstream matches Some(OpenWikiOutcome::Ran { .. })),
{
    match upstream {
        Some(OpenWikiOutcome::Ran { .. }) => true,
        _ => false,
    }
}

/// The routing step for an upstream outcome and the current notes file
/// text: `Skipped` with nothing written unless openwiki ran, otherwise
/// the result of `ensure_pointer`.
pub fn route(upstream: &Option<OpenWikiOutcome>, existing: &str) -> (u: PointerUpdate)
    ensures
        !(upstream matches Some(OpenWikiOutcome::Ran { .. })) ==> u.outcome == RouteOutcome::Skipped
            && u.new_contents is None,
        (upstream matches Some(OpenWikiOutcome::Ran { .. })) ==> u.outcome == spec_route_outcome(existing@)
            && (has_pointer(existing@) ==> u.new_contents is None)
            && (!has_pointer(existing@) ==> (u.new_contents matches Some(c) && c@ == spec_routed_contents(existing@))),
{
    if should_route(upstream) {
        ensure_pointer(existing)
    } else {
        PointerUpdate { outcome: RouteOutcome::Skipped, new_contents: None }
    }
}

/// The pointer section holds the marker, right after its first newline.
pub proof fn lemma_block_has_marker()
    ensures
        spec_pointer_block().subrange(1, 1 + POINTER_MARKER@.len() as int) == POINTER_MARKER@,
{
    reveal_strlit("\n");
    let b = spec_pointer_block();
    assert(b.subrange(1, 1 + POINTER_MARKER@.len() as int) =~= POINTER_MARKER@);
}

/// The pointer section is a newline, the marker, the pointer text, the
/// marker and a newline; so it opens and closes with the marker, and the
/// pointer text links `openwiki/quickstart.md`.
pub proof fn lemma_block_shape()
    ensures
        spec_pointer_block()[0] == '\n',
        spec_pointer_block().last() == '\n',
        spec_pointer_block().subrange(1, 1 + POINTER_MARKER@.len() as int) == POINTER_MARKER@,
        spec_pointer_block().subrange(
            spec_pointer_block().len() - 1 - POINTER_MARKER@.len(),
            spec_pointer_block().len() - 1,
        ) == POINTER_MARKER@,
        contains_seq(spec_pointer_block(), "openwiki/quickstart.md"@),
        contains_seq(POINTER_BODY@, "openwiki/quickstart.md"@),
        POINTER_MARKER@ == "<!-- ponte:openwiki-pointer -->"@,
{
    reveal_strlit("\n");
    lemma_block_has_marker();
    let b = spec_pointer_block();
    let m = POINTER_MARKER@;
    assert(b.subrange(b.len() - 1 - m.len(), b.len() - 1) =~= m);
    reveal_strlit("\n## Generated documentation\n\nOpenWiki-generated docs for this repo live under [`openwiki/`](./openwiki/quickstart.md) \u{2014} start at `openwiki/quickstart.md`.\n");
    reveal_strlit("openwiki/quickstart.md");
    let body = POINTER_BODY@;
    let q = "openwiki/quickstart.md"@;
    let k: int = 94;
    assert(body.subrange(k, k + q.len()) =~= q);
    let pre = "\n"@ + m;
    assert(b == pre + body + (m + "\n"@));
    lemma_contains_placed(pre, body, m + "\n"@);
    assert(b.subrange(pre.len() + k, pre.len() + k + q.len()) =~= q);
}

/// After routing, the notes file holds the pointer, and whatever it held
/// before is kept as its prefix.
pub proof fn lemma_routed_has_pointer_and_keeps_text(existing: Seq<char>)
    ensures
        has_pointer(spec_routed_contents(existing)),
        spec_routed_contents(existing).take(existing.len() as int) == existing,
{
    let r = spec_routed_contents(existing);
    if !has_pointer(existing) {
        lemma_block_has_marker();
        reveal_strlit("\n");
        let b = spec_pointer_block();
        let m = POINTER_MARKER@;
        let i: int = existing.len() as int + 1;
        assert(r.subrange(i, i + m.len() as int) =~= b.subrange(1, 1 + m.len() as int));
        assert(r.take(existing.len() as int) =~= existing);
    } else {
        assert(r.take(existing.len() as int) =~= existing);
    }
}

/// The pointer section is added exactly when the marker does not occur
/// in the existing text, whatever its length: then the new text is the
/// old text followed by the section; otherwise the text is left as it is.
pub proof fn lemma_route_adds_exactly_without_marker(existing: Seq<char>)
    ensures
        !contains_seq(existing, POINTER_MARKER@) ==> spec_route_outcome(existing) == RouteOutcome::PointerAdded
            && spec_routed_contents(existing) == existing + spec_pointer_block(),
        contains_seq(existing, POINTER_MARKER@) ==> spec_route_outcome(existing) == RouteOutcome::PointerAlreadyPresent
            && spec_routed_contents(existing) == existing,
{
}

/// Routing is idempotent: routing a second time reports the pointer as
/// already present and leaves the file exactly as the first run left it,
/// so the pointer section is never duplicated.
pub proof fn lemma_route_idempotent(existing: Seq<char>)
    ensures
        spec_route_outcome(spec_routed_contents(existing)) == RouteOutcome::PointerAlreadyPresent,
        spec_routed_contents(spec_routed_contents(existing)) == spec_routed_contents(existing),
{
    lemma_routed_has_pointer_and_keeps_text(existing);
}

} // verus!
