//! Names of the small per-repository files ponte keeps between runs.
//!
//! A repository is keyed by a slug of its canonical path: every
//! character that is not an ASCII letter or digit becomes `-`, and dashes are then
//! trimmed from both ends. The canonicalization itself reads the disk and
//! is done by the caller, which hands in the canonical path as text.

use vstd::prelude::*;
use crate::text::{chars_of, push_char};
use std::path::Path;

verus! {

/// `c` is an ASCII letter or digit (std's `char::is_ascii_alphanumeric`).
pub open spec fn is_ascii_alnum(c: char) -> bool {
    ('0' <= c && c <= '9') || ('A' <= c && c <= 'Z') || ('a' <= c && c <= 'z')
}

/// The character that stands for `c` in a slug.
pub open spec fn slug_char(c: char) -> char {
    if is_ascii_alnum(c) {
        c
    } else {
        '-'
    }
}

/// `s` with every leading and trailing `-` removed.
pub open spec fn trim_dashes(s: Seq<char>) -> Seq<char>
    decreases s.len(),
{
    if s.len() == 0 {
        s
    } else if s.first() == '-' {
        trim_dashes(s.drop_first())
    } else if s.last() == '-' {
        trim_dashes(s.drop_last())
    } else {
        s
    }
}

/// The slug of a repository whose canonical path reads `path`.
pub open spec fn spec_repo_slug(path: Seq<char>) -> Seq<char> {
    trim_dashes(path.map_values(|c: char| slug_char(c)))
}

/// A path is joined to a relative or absolute name as `PathBuf::push`
/// does on Unix: an absolute name replaces the base; otherwise a `/` is
/// put between them unless the base is empty or already ends in one.
pub open spec fn join_path(base: Seq<char>, name: Seq<char>) -> Seq<char> {
    if name.len() > 0 && name[0] == '/' {
        name
    } else if base.len() == 0 || base.last() == '/' {
        base + name
    } else {
        base + seq!['/'] + name
    }
}

/// The state file of a repository inside `state_dir`.
pub open spec fn spec_state_path(state_dir: Seq<char>, path: Seq<char>) -> Seq<char> {
    join_path(state_dir, spec_repo_slug(path) + ".json"@)
}

/// ponte's home directory given the value of `HOME`, if set.
pub open spec fn spec_ponte_home(home: Option<Seq<char>>) -> Seq<char> {
    match home {
        Some(h) => join_path(h, ".ponte"@),
        None => join_path("."@, ".ponte"@),
    }
}

/// The audit log of a repository under ponte's home directory.
pub open spec fn spec_audit_path(home: Seq<char>, path: Seq<char>) -> Seq<char> {
    join_path(join_path(home, "audit"@), spec_repo_slug(path) + ".jsonl"@)
}

/// The state directory under ponte's home directory.
pub open spec fn spec_state_dir(home: Seq<char>) -> Seq<char> {
    join_path(home, "state"@)
}

/// `path` without its trailing `/` characters.
pub open spec fn strip_trailing_slashes(path: Seq<char>) -> Seq<char>
    decreases path.len(),
{
    if path.len() > 0 && path.last() == '/' {
        strip_trailing_slashes(path.drop_last())
    } else {
        path
    }
}

/// The index of the last `/` in `path`, or -1 when it has none.
pub open spec fn last_slash(path: Seq<char>) -> int
    decreases path.len(),
{
    if path.len() == 0 {
        -1
    } else if path.last() == '/' {
        path.len() - 1
    } else {
        last_slash(path.drop_last())
    }
}

/// Stripping trailing slashes never lengthens a path.
pub proof fn lemma_strip_shorter(path: Seq<char>)
    ensures
        strip_trailing_slashes(path).len() <= path.len(),
    decreases path.len(),
{
    if path.len() > 0 && path.last() == '/' {
        lemma_strip_shorter(path.drop_last());
    }
}

/// `last_slash` is -1 or the index of a `/` in the path.
pub proof fn lemma_last_slash_bounds(path: Seq<char>)
    ensures
        -1 <= last_slash(path) < path.len(),
        last_slash(path) >= 0 ==> path[last_slash(path)] == '/',
    decreases path.len(),
{
    if path.len() > 0 && path.last() != '/' {
        lemma_last_slash_bounds(path.drop_last());
    }
}

/// The final component of a Unix path, as std's `Path::file_name` finds
/// it: trailing `/` are ignored; a final `.` is skipped (and a path that is
/// only `.` has none); a final `..` has none; an empty path and the root
/// have none.
pub open spec fn path_file_name(path: Seq<char>) -> Option<Seq<char>>
    decreases path.len(),
{
    let q = strip_trailing_slashes(path);
    if q.len() == 0 {
        None
    } else {
        let i = last_slash(q);
        let seg = q.subrange(i + 1, q.len() as int);
        if seg == seq!['.'] {
            if i < 0 {
                None
            } else {
                proof {
                    lemma_strip_shorter(path);
                    lemma_last_slash_bounds(q);
                    assert(seg.len() == 1);
                    assert(i + 1 < q.len());
                }
                path_file_name(q.subrange(0, i + 1))
            }
        } else if seg == seq!['.', '.'] {
            None
        } else {
            Some(seg)
        }
    }
}

/// The final component of `path` by std's `Path::file_name`, as text.
/// Trusted: the contract claims that the result is the component
/// `path_file_name` describes, the Unix behavior of `Path::file_name`
/// (its components are split at `/`, with repeated and trailing `/`
/// ignored and `.` dropped except at the start).
#[verifier::external_body]
fn file_name_text(path: &str) -> (name: Option<String>)
    ensures
        match name {
            Some(n) => path_file_name(path@) == Some(n@),
            None => path_file_name(path@) is None,
        },
{
    Path::new(path).file_name().map(|n| n.to_string_lossy().into_owned())
}

/// The name a repository is reported under: the final component of its
/// canonical path, or `unknown` when the path has none.
pub fn repo_name(repo_path: &str) -> (name: String)
    ensures
        name@ == (match path_file_name(repo_path@) {
            Some(n) => n,
            None => "unknown"@,
        }),
{
    match file_name_text(repo_path) {
        Some(n) => n,
        None => String::from_str("unknown"),
    }
}

/// Whether `c` is an ASCII letter or digit.
pub fn ascii_alnum(c: char) -> (r: bool)
    ensures
        r == is_ascii_alnum(c),
{
    ('0' <= c && c <= '9') || ('A' <= c && c <= 'Z') || ('a' <= c && c <= 'z')
}

proof fn lemma_trim_window(s: Seq<char>, lo: int, hi: int)
    requires
        0 <= lo <= hi <= s.len(),
        forall|i: int| 0 <= i < lo ==> s[i] == '-',
        forall|i: int| hi <= i < s.len() ==> s[i] == '-',
        lo < hi ==> s[lo] != '-' && s[hi - 1] != '-',
    ensures
        trim_dashes(s) == s.subrange(lo, hi),
    decreases s.len(),
{
    if s.len() == 0 {
        assert(s.subrange(lo, hi) =~= s);
    } else if s.first() == '-' {
        let t = s.drop_first();
        if lo == 0 {
            assert(hi == 0);
            lemma_trim_window(t, 0, 0);
            assert(s.subrange(0, 0) =~= t.subrange(0, 0));
        } else {
            lemma_trim_window(t, lo - 1, hi - 1);
            assert(s.subrange(lo, hi) =~= t.subrange(lo - 1, hi - 1));
        }
    } else if s.last() == '-' {
        let t = s.drop_last();
        assert(lo == 0);
        if lo < hi {
            assert(hi < s.len());
        } else {
            assert(hi == 0);
        }
        lemma_trim_window(t, lo, hi);
        assert(s.subrange(lo, hi) =~= t.subrange(lo, hi));
    } else {
        assert(lo == 0);
        assert(hi == s.len());
        assert(s.subrange(lo, hi) =~= s);
    }
}

/// The slug of a repository, given the text of its canonical path.
///
/// Every character that is not an ASCII letter or digit becomes `-`,
/// then dashes are trimmed from both ends.
pub fn repo_slug(repo_path: &str) -> (slug: String)
    ensures
        slug@ == spec_repo_slug(repo_path@),
{
    let chars = chars_of(repo_path);
    let n = chars.len();
    let ghost mapped = repo_path@.map_values(|c: char| slug_char(c));
    let mut lo: usize = 0;
    while lo < n && !ascii_alnum(chars[lo])
        invariant
            n == chars@.len(),
            chars@ == repo_path@,
            mapped == repo_path@.map_values(|c: char| slug_char(c)),
            lo <= n,
            forall|i: int| 0 <= i < lo ==> mapped[i] == '-',
        decreases n - lo,
    {
        lo = lo + 1;
    }
    let mut hi: usize = n;
    while hi > lo && !ascii_alnum(chars[hi - 1])
        invariant
            n == chars@.len(),
            chars@ == repo_path@,
            mapped == repo_path@.map_values(|c: char| slug_char(c)),
            lo <= hi <= n,
            forall|i: int| hi <= i < n ==> mapped[i] == '-',
        decreases hi,
    {
        hi = hi - 1;
    }
    proof {
        lemma_trim_window(mapped, lo as int, hi as int);
    }
    let mut out = String::new();
    let mut i: usize = lo;
    while i < hi
        invariant
            n == chars@.len(),
            chars@ == repo_path@,
            mapped == repo_path@.map_values(|c: char| slug_char(c)),
            lo <= i <= hi <= n,
            out@ == mapped.subrange(lo as int, i as int),
        decreases hi - i,
    {
        let c = chars[i];
        let d = if ascii_alnum(c) {
            c
        } else {
            '-'
        };
        push_char(&mut out, d);
        assert(mapped.subrange(lo as int, i + 1) =~= mapped.subrange(lo as int, i as int).push(d));
        i = i + 1;
    }
    out
}

/// `base` joined with `name`, as `PathBuf::push` joins them on Unix.
pub fn join(base: &str, name: &str) -> (p: String)
    ensures
        p@ == join_path(base@, name@),
{
    let name_len = name.unicode_len();
    if name_len > 0 && name.get_char(0) == '/' {
        return String::from_str(name);
    }
    let base_len = base.unicode_len();
    let mut out = String::from_str(base);
    if base_len > 0 && base.get_char(base_len - 1) != '/' {
        push_char(&mut out, '/');
    }
    out.append(name);
    out
}

/// The state file of `repo_path` (the text of its canonical path) inside
/// `state_dir`: `<state_dir>/<slug>.json`.
pub fn state_path(state_dir: &str, repo_path: &str) -> (p: String)
    ensures
        p@ == spec_state_path(state_dir@, repo_path@),
{
    let mut name = repo_slug(repo_path);
    name.append(".json");
    join(state_dir, name.as_str())
}

/// ponte's home directory, `<HOME>/.ponte`, given the value of `HOME`;
/// `./.ponte` when `HOME` is unset.
pub fn ponte_home(home: Option<&str>) -> (p: String)
    ensures
        p@ == spec_ponte_home(match home {
            Some(h) => Some(h@),
            None => None,
        }),
{
    match home {
        Some(h) => join(h, ".ponte"),
        None => join(".", ".ponte"),
    }
}

/// The directory of the per-repository state files: `<home>/state`.
pub fn state_dir(home: &str) -> (p: String)
    ensures
        p@ == spec_state_dir(home@),
{
    join(home, "state")
}

/// The audit log of `repo_path` (the text of its canonical path):
/// `<home>/audit/<slug>.jsonl`.
pub fn audit_path(home: &str, repo_path: &str) -> (p: String)
    ensures
        p@ == spec_audit_path(home@, repo_path@),
{
    let dir = join(home, "audit");
    let mut name = repo_slug(repo_path);
    name.append(".jsonl");
    join(dir.as_str(), name.as_str())
}

/// A slug holds only ASCII letters, digits and `-`.
pub open spec fn is_slug_char(c: char) -> bool {
    is_ascii_alnum(c) || c == '-'
}

/// A well-formed slug: only slug characters, and no `-` at either end.
pub open spec fn is_slug(s: Seq<char>) -> bool {
    &&& forall|i: int| 0 <= i < s.len() ==> #[trigger] is_slug_char(s[i])
    &&& s.len() > 0 ==> s.first() != '-' && s.last() != '-'
}

proof fn lemma_trim_bounds(s: Seq<char>) -> (r: (int, int))
    ensures
        0 <= r.0 <= r.1 <= s.len(),
        trim_dashes(s) == s.subrange(r.0, r.1),
        trim_dashes(s).len() > 0 ==> trim_dashes(s).first() != '-' && trim_dashes(s).last() != '-',
    decreases s.len(),
{
    if s.len() == 0 {
        assert(s.subrange(0, 0) =~= s);
        (0, 0)
    } else if s.first() == '-' {
        let t = s.drop_first();
        let (a, b) = lemma_trim_bounds(t);
        assert(t.subrange(a, b) =~= s.subrange(a + 1, b + 1));
        (a + 1, b + 1)
    } else if s.last() == '-' {
        let t = s.drop_last();
        let (a, b) = lemma_trim_bounds(t);
        assert(t.subrange(a, b) =~= s.subrange(a, b));
        (a, b)
    } else {
        assert(s.subrange(0, s.len() as int) =~= s);
        (0, s.len() as int)
    }
}

/// Every slug is well formed: it holds only ASCII letters, digits and
/// `-`, never starts or ends with `-`, and is no longer than the path.
pub proof fn lemma_slug_well_formed(path: Seq<char>)
    ensures
        is_slug(spec_repo_slug(path)),
        spec_repo_slug(path).len() <= path.len(),
{
    let mapped = path.map_values(|c: char| slug_char(c));
    let (lo, hi) = lemma_trim_bounds(mapped);
    let t = spec_repo_slug(path);
    assert forall|i: int| 0 <= i < t.len() implies #[trigger] is_slug_char(t[i]) by {
        assert(t[i] == mapped[lo + i]);
    }
}

/// Slugging is idempotent: a slug is its own slug.
pub proof fn lemma_slug_idempotent(path: Seq<char>)
    ensures
        spec_repo_slug(spec_repo_slug(path)) == spec_repo_slug(path),
{
    let t = spec_repo_slug(path);
    lemma_slug_well_formed(path);
    let m = t.map_values(|c: char| slug_char(c));
    assert(m =~= t) by {
        assert forall|i: int| 0 <= i < t.len() implies m[i] == t[i] by {
            assert(is_slug_char(t[i]));
        }
    }
    if t.len() > 0 {
        assert(trim_dashes(t) == t);
    }
}

proof fn lemma_join_relative_injective(base: Seq<char>, a: Seq<char>, b: Seq<char>)
    requires
        a.len() > 0 ==> a[0] != '/',
        b.len() > 0 ==> b[0] != '/',
        a != b,
    ensures
        join_path(base, a) != join_path(base, b),
{
    let pre = if base.len() == 0 || base.last() == '/' { base } else { base + seq!['/'] };
    assert(join_path(base, a) == pre + a);
    assert(join_path(base, b) == pre + b);
    if pre + a == pre + b {
        assert((pre + a).skip(pre.len() as int) =~= a);
        assert((pre + b).skip(pre.len() as int) =~= b);
    }
}

proof fn lemma_suffix_injective(a: Seq<char>, b: Seq<char>, suffix: Seq<char>)
    requires
        a != b,
    ensures
        a + suffix != b + suffix,
{
    if a + suffix == b + suffix {
        assert((a + suffix).len() == (b + suffix).len());
        assert((a + suffix).take(a.len() as int) =~= a);
        assert((b + suffix).take(b.len() as int) =~= b);
    }
}

/// Repositories with different slugs get different state files in the
/// same state directory.
pub proof fn lemma_distinct_slugs_distinct_state_files(state_dir: Seq<char>, a: Seq<char>, b: Seq<char>)
    requires
        spec_repo_slug(a) != spec_repo_slug(b),
    ensures
        spec_state_path(state_dir, a) != spec_state_path(state_dir, b),
{
    lemma_slug_well_formed(a);
    lemma_slug_well_formed(b);
    let na = spec_repo_slug(a) + ".json"@;
    let nb = spec_repo_slug(b) + ".json"@;
    reveal_strlit(".json");
    lemma_suffix_injective(spec_repo_slug(a), spec_repo_slug(b), ".json"@);
    assert(na.len() > 0 ==> na[0] != '/') by {
        if spec_repo_slug(a).len() > 0 {
            assert(na[0] == spec_repo_slug(a)[0]);
            assert(is_slug_char(spec_repo_slug(a)[0]));
        }
    }
    assert(nb.len() > 0 ==> nb[0] != '/') by {
        if spec_repo_slug(b).len() > 0 {
            assert(nb[0] == spec_repo_slug(b)[0]);
            assert(is_slug_char(spec_repo_slug(b)[0]));
        }
    }
    lemma_join_relative_injective(state_dir, na, nb);
}

/// The state file sits directly in the state directory: its path is the
/// directory, a separator where one is missing, and `<slug>.json`.
pub proof fn lemma_state_file_in_state_dir(state_dir: Seq<char>, path: Seq<char>)
    ensures
        spec_state_path(state_dir, path) == (if state_dir.len() == 0 || state_dir.last() == '/' {
            state_dir
        } else {
            state_dir + seq!['/']
        }) + spec_repo_slug(path) + ".json"@,
{
    lemma_slug_well_formed(path);
    let name = spec_repo_slug(path) + ".json"@;
    reveal_strlit(".json");
    if spec_repo_slug(path).len() > 0 {
        assert(name[0] == spec_repo_slug(path)[0]);
        assert(is_slug_char(spec_repo_slug(path)[0]));
    } else {
        assert(name[0] == '.');
    }
    assert(spec_repo_slug(path) + ".json"@ == name);
    if !(state_dir.len() == 0 || state_dir.last() == '/') {
        assert(state_dir + seq!['/'] + name =~= state_dir + seq!['/'] + spec_repo_slug(path) + ".json"@);
    } else {
        assert(state_dir + name =~= state_dir + spec_repo_slug(path) + ".json"@);
    }
}

/// A path that starts and ends with an ASCII letter or digit keeps its
/// length in the slug; every ASCII letter and digit stays where it is and
/// every other character becomes `-`.
pub proof fn lemma_slug_keeps_letters_and_digits(path: Seq<char>)
    requires
        path.len() > 0,
        ('0' <= path.first() <= '9') || ('A' <= path.first() <= 'Z') || ('a' <= path.first() <= 'z'),
        ('0' <= path.last() <= '9') || ('A' <= path.last() <= 'Z') || ('a' <= path.last() <= 'z'),
    ensures
        spec_repo_slug(path).len() == path.len(),
        forall|i: int|
            0 <= i < path.len() ==> #[trigger] spec_repo_slug(path)[i] == (if ('0' <= path[i] <= '9') || ('A'
                <= path[i] <= 'Z') || ('a' <= path[i] <= 'z') {
                path[i]
            } else {
                '-'
            }),
{
    let m = path.map_values(|c: char| slug_char(c));
    assert(m.first() == path.first());
    assert(m.last() == path.last());
    assert(trim_dashes(m) == m);
}

/// Every ASCII digit and letter is kept in a slug, and every other
/// character becomes `-`.
pub proof fn lemma_slug_char_cases(c: char)
    ensures
        ('0' <= c <= '9') ==> slug_char(c) == c,
        ('A' <= c <= 'Z') ==> slug_char(c) == c,
        ('a' <= c <= 'z') ==> slug_char(c) == c,
        !(('0' <= c <= '9') || ('A' <= c <= 'Z') || ('a' <= c <= 'z')) ==> slug_char(c) == '-',
{
}

/// The audit log sits in the `audit` directory under ponte's home, named
/// by the whole slug: `<home>/audit/<slug>.jsonl`, with a `/` after the
/// home directory where it does not already end in one.
pub proof fn lemma_audit_file_in_audit_dir(home: Seq<char>, path: Seq<char>)
    ensures
        spec_audit_path(home, path) == (if home.len() == 0 || home.last() == '/' {
            home
        } else {
            home + seq!['/']
        }) + "audit/"@ + spec_repo_slug(path) + ".jsonl"@,
{
    reveal_strlit("audit");
    reveal_strlit("audit/");
    reveal_strlit(".jsonl");
    lemma_slug_well_formed(path);
    let slug = spec_repo_slug(path);
    let pre = if home.len() == 0 || home.last() == '/' { home } else { home + seq!['/'] };
    let dir = join_path(home, "audit"@);
    assert(dir == pre + "audit"@);
    assert(dir.last() == 't');
    let name = slug + ".jsonl"@;
    if slug.len() > 0 {
        assert(name[0] == slug[0]);
        assert(is_slug_char(slug[0]));
    } else {
        assert(name[0] == '.');
    }
    assert(spec_audit_path(home, path) == dir + seq!['/'] + name);
    assert(dir + seq!['/'] + name =~= pre + "audit/"@ + slug + ".jsonl"@);
}

/// Repositories with different slugs get different audit logs under the
/// same home directory.
pub proof fn lemma_distinct_slugs_distinct_audit_files(home: Seq<char>, a: Seq<char>, b: Seq<char>)
    requires
        spec_repo_slug(a) != spec_repo_slug(b),
    ensures
        spec_audit_path(home, a) != spec_audit_path(home, b),
{
    lemma_audit_file_in_audit_dir(home, a);
    lemma_audit_file_in_audit_dir(home, b);
    let pre = (if home.len() == 0 || home.last() == '/' { home } else { home + seq!['/'] }) + "audit/"@;
    let sa = spec_repo_slug(a);
    let sb = spec_repo_slug(b);
    lemma_suffix_injective(sa, sb, ".jsonl"@);
    assert(pre + sa + ".jsonl"@ =~= pre + (sa + ".jsonl"@));
    assert(pre + sb + ".jsonl"@ =~= pre + (sb + ".jsonl"@));
    if pre + (sa + ".jsonl"@) == pre + (sb + ".jsonl"@) {
        assert((pre + (sa + ".jsonl"@)).skip(pre.len() as int) =~= sa + ".jsonl"@);
        assert((pre + (sb + ".jsonl"@)).skip(pre.len() as int) =~= sb + ".jsonl"@);
    }
}

/// ponte's home is `.ponte` directly under `HOME` (a `/` put between them
/// where `HOME` does not end in one), or `./.ponte` without `HOME`.
pub proof fn lemma_ponte_home_shape(home: Option<Seq<char>>)
    ensures
        home is None ==> spec_ponte_home(home) == "./.ponte"@,
        home matches Some(h) ==> spec_ponte_home(home) == (if h.len() == 0 || h.last() == '/' {
            h
        } else {
            h + seq!['/']
        }) + ".ponte"@,
{
    reveal_strlit(".ponte");
    reveal_strlit(".");
    reveal_strlit("./.ponte");
    if home is None {
        assert("."@ + seq!['/'] + ".ponte"@ =~= "./.ponte"@);
    }
}

/// The state directory is `state` directly under ponte's home.
pub proof fn lemma_state_dir_shape(home: Seq<char>)
    ensures
        spec_state_dir(home) == (if home.len() == 0 || home.last() == '/' {
            home
        } else {
            home + seq!['/']
        }) + "state"@,
{
    reveal_strlit("state");
}

} // verus!
