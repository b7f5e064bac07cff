//! The decisions of the job that runs the `openwiki` binary against the
//! target repository, unmodified.
//!
//! The mode (`--init` vs `--update`) is chosen by whether `openwiki/`
//! already exists in the repository, which is OpenWiki's own documented
//! behavior made explicit. The binary is a paid, non-deterministic LLM
//! call, so it is never run when the upstream context is unchanged.
//!
//! The caller spawns the process, waits for it under a timeout and reads
//! the directory; the functions here say what to do before and after.

use vstd::prelude::*;
use std::path::PathBuf;
use std::time::Duration;

verus! {

/// `std::path::PathBuf`, carried through unchanged.
#[verifier::external_type_specification]
#[verifier::external_body]
pub struct ExPathBuf(PathBuf);

/// `std::io::Error`, carried through unchanged.
#[verifier::external_type_specification]
#[verifier::external_body]
pub struct ExIoError(std::io::Error);

/// Whether OpenWiki creates its docs or refreshes them.
#[derive(Clone, Copy, Debug, PartialEq, Eq, Structural)]
pub enum RunMode {
    Init,
    Update,
}

/// What the invocation produced.
#[derive(Clone, Debug)]
pub enum OpenWikiOutcome {
    /// Upstream context was unchanged, so openwiki was not invoked at
    /// all: running an LLM agent again has no native no-op floor.
    Skipped,
    /// openwiki ran in `mode`; `stdout_tail` is the end of what it printed.
    Ran { mode: RunMode, stdout_tail: String },
}

/// Why the invocation failed.
#[derive(Debug)]
pub enum OpenWikiError {
    /// The context job left no outcome behind.
    MissingUpstreamOutcome,
    /// The binary could not be spawned, or waiting for it failed.
    Spawn { binary: PathBuf, source: std::io::Error },
    /// The whole run took longer than the given bound.
    Timeout(Duration),
    /// The binary exited unsuccessfully. This is its raw wait status
    /// (as `waitpid` reports it, and `ExitStatusExt::into_raw` gives it),
    /// from which the exit code, or the signal that ended the process and
    /// whether it dumped core, are read back unchanged.
    NonZeroExit(i32),
}

/// What to do once the upstream outcome is known.
#[derive(Clone, Debug)]
pub enum InvokePlan {
    /// Nothing to run: this is the job's outcome.
    Done(OpenWikiOutcome),
    /// Run openwiki.
    Run,
}

/// The number of characters of openwiki's output that are kept.
pub const STDOUT_TAIL_CHARS: usize = 2000;

/// The last `min(n, s.len())` characters of `s`.
pub open spec fn last_chars(s: Seq<char>, n: nat) -> Seq<char> {
    if s.len() <= n {
        s
    } else {
        s.subrange(s.len() - n, s.len() as int)
    }
}

/// The text `String::from_utf8_lossy` makes of `bytes`.
pub uninterp spec fn utf8_lossy(bytes: Seq<u8>) -> Seq<char>;

/// Decides from the upstream context outcome (`Some(changed)`, or `None`
/// when the context job left none) whether openwiki must run.
pub fn plan_invoke(upstream_changed: Option<bool>) -> (r: Result<InvokePlan, OpenWikiError>)
    ensures
        upstream_changed is None ==> r matches Err(OpenWikiError::MissingUpstreamOutcome),
        upstream_changed == Some(false) ==> r matches Ok(InvokePlan::Done(OpenWikiOutcome::Skipped)),
        upstream_changed == Some(true) ==> r matches Ok(InvokePlan::Run),
{
    match upstream_changed {
        None => Err(OpenWikiError::MissingUpstreamOutcome),
        Some(false) => Ok(InvokePlan::Done(OpenWikiOutcome::Skipped)),
        Some(true) => Ok(InvokePlan::Run),
    }
}

/// The mode for a repository: `Update` when `openwiki/` is already a
/// directory there, `Init` otherwise.
pub fn run_mode(openwiki_dir_exists: bool) -> (m: RunMode)
    ensures
        m == (if openwiki_dir_exists { RunMode::Update } else { RunMode::Init }),
{
    if openwiki_dir_exists {
        RunMode::Update
    } else {
        RunMode::Init
    }
}

/// The command-line flag that selects `mode`.
pub fn mode_flag(mode: RunMode) -> (flag: &'static str)
    ensures
        flag@ == (match mode {
            RunMode::Init => "--init"@,
            RunMode::Update => "--update"@,
        }),
{
    match mode {
        RunMode::Init => "--init",
        RunMode::Update => "--update",
    }
}

/// The arguments openwiki is run with: the mode flag, then `--print`.
pub fn openwiki_args(mode: RunMode) -> (args: Vec<&'static str>)
    ensures
        args@.len() == 2,
        args@[0]@ == (match mode {
            RunMode::Init => "--init"@,
            RunMode::Update => "--update"@,
        }),
        args@[1]@ == "--print"@,
{
    let mut args: Vec<&'static str> = Vec::new();
    args.push(mode_flag(mode));
    args.push("--print");
    args
}

/// The last `STDOUT_TAIL_CHARS` characters of `stdout` (all of it when
/// it is shorter), counted in characters so no character is ever split.
pub fn stdout_tail(stdout: &str) -> (tail: String)
    ensures
        tail@ == last_chars(stdout@, STDOUT_TAIL_CHARS as nat),
{
    let n = stdout.unicode_len();
    let start: usize = if n <= STDOUT_TAIL_CHARS {
        0
    } else {
        n - STDOUT_TAIL_CHARS
    };
    let tail = String::from_str(stdout.substring_char(start, n));
    proof {
        if n <= STDOUT_TAIL_CHARS {
            assert(stdout@.subrange(0, n as int) =~= stdout@);
        }
    }
    tail
}

/// `bytes` read as UTF-8 by std's `String::from_utf8_lossy`, which
/// replaces each invalid sequence with U+FFFD. Trusted: the contract
/// claims that the result is a function of the bytes alone (named
/// `utf8_lossy`) and, as the documentation says, that valid UTF-8 is
/// decoded as it stands. How invalid sequences are replaced is left
/// unsaid.
#[verifier::external_body]
fn lossy_text(bytes: &[u8]) -> (s: String)
    ensures
        s@ == utf8_lossy(bytes@),
        vstd::utf8::valid_utf8(bytes@) ==> s@ == vstd::utf8::decode_utf8(bytes@),
{
    String::from_utf8_lossy(bytes).into_owned()
}

/// The outcome of a run that ended with the exit result given (whether it
/// succeeded, and its raw wait status): an unsuccessful exit is an error
/// carrying the wait status; a successful one gives `Ran` with the tail of
/// the output, read as lossy UTF-8.
pub fn finish_run(mode: RunMode, exited_successfully: bool, raw_status: i32, stdout: &[u8]) -> (r: Result<OpenWikiOutcome, OpenWikiError>)
    ensures
        !exited_successfully ==> (r matches Err(OpenWikiError::NonZeroExit(s)) && s == raw_status),
        exited_successfully ==> (r matches Ok(OpenWikiOutcome::Ran { mode: m, stdout_tail: t })
            && m == mode && t@ == last_chars(utf8_lossy(stdout@), STDOUT_TAIL_CHARS as nat)),
        exited_successfully && vstd::utf8::valid_utf8(stdout@) ==> (r matches Ok(OpenWikiOutcome::Ran { stdout_tail: t, .. })
            && t@ == last_chars(vstd::utf8::decode_utf8(stdout@), STDOUT_TAIL_CHARS as nat)),
{
    if !exited_successfully {
        return Err(OpenWikiError::NonZeroExit(raw_status));
    }
    let text = lossy_text(stdout);
    let tail = stdout_tail(text.as_str());
    Ok(OpenWikiOutcome::Ran { mode, stdout_tail: tail })
}

/// The kept tail is a suffix of the output, exactly `min(n, 2000)`
/// characters long, and the whole output when that is short enough.
pub proof fn lemma_tail_is_bounded_suffix(s: Seq<char>)
    ensures
        STDOUT_TAIL_CHARS == 2000,
        last_chars(s, STDOUT_TAIL_CHARS as nat).len() == (if s.len() <= 2000 { s.len() } else { 2000 }),
        last_chars(s, STDOUT_TAIL_CHARS as nat) == s.skip(s.len() - last_chars(s, STDOUT_TAIL_CHARS as nat).len()),
        s.len() <= 2000 ==> last_chars(s, STDOUT_TAIL_CHARS as nat) == s,
        forall|i: int| 0 <= i < last_chars(s, STDOUT_TAIL_CHARS as nat).len() ==>
            #[trigger] last_chars(s, STDOUT_TAIL_CHARS as nat)[i] == s[s.len() - last_chars(s, STDOUT_TAIL_CHARS as nat).len() + i],
{
    if s.len() <= STDOUT_TAIL_CHARS {
        assert(s.skip(0) =~= s);
    } else {
        assert(s.subrange(s.len() - STDOUT_TAIL_CHARS, s.len() as int) =~= s.skip(s.len() - STDOUT_TAIL_CHARS));
    }
}

} // verus!
