//! The decisions of the CLI driver around the job scheduler: when the
//! pipeline has reached a terminal state, and how many jobs were
//! deadlettered (any one of them makes the run fail).

use vstd::prelude::*;

verus! {

/// The phase a job is in, as the scheduler reports it.
#[derive(Clone, Copy, Debug, PartialEq, Eq, Structural)]
pub enum PhaseKind {
    Pending,
    Gated,
    Ready,
    Running,
    Succeeded,
    Failed,
    Retrying,
    Skipped,
    Deadlettered,
    WaitingForOperator,
}

/// A job in this phase will not move again.
pub open spec fn is_terminal(p: PhaseKind) -> bool {
    p == PhaseKind::Succeeded || p == PhaseKind::Skipped || p == PhaseKind::Deadlettered
}

/// The number of deadlettered jobs among `phases`.
pub open spec fn deadlettered_in(phases: Seq<PhaseKind>) -> nat
    decreases phases.len(),
{
    if phases.len() == 0 {
        0
    } else {
        deadlettered_in(phases.drop_last()) + if phases.last() == PhaseKind::Deadlettered {
            1nat
        } else {
            0nat
        }
    }
}

/// Whether a job in phase `p` is done: succeeded, skipped or deadlettered.
pub fn phase_is_terminal(p: PhaseKind) -> (r: bool)
    ensures
        r == is_terminal(p),
{
    match p {
        PhaseKind::Succeeded | PhaseKind::Skipped | PhaseKind::Deadlettered => true,
        _ => false,
    }
}

/// Whether every job of the pipeline has reached a terminal phase.
pub fn all_terminal(phases: &Vec<PhaseKind>) -> (r: bool)
    ensures
        r == (forall|i: int| 0 <= i < phases@.len() ==> #[trigger] is_terminal(phases@[i])),
{
    let mut i: usize = 0;
    while i < phases.len()
        invariant
            i <= phases@.len(),
            forall|k: int| 0 <= k < i ==> #[trigger] is_terminal(phases@[k]),
        decreases phases@.len() - i,
    {
        if !phase_is_terminal(phases[i]) {
            return false;
        }
        i = i + 1;
    }
    true
}

/// The number of deadlettered jobs; the run fails when it is not zero.
pub fn count_deadlettered(phases: &Vec<PhaseKind>) -> (n: usize)
    ensures
        n == deadlettered_in(phases@),
{
    let mut n: usize = 0;
    let mut i: usize = 0;
    while i < phases.len()
        invariant
            i <= phases@.len(),
            n == deadlettered_in(phases@.take(i as int)),
            n <= i,
        decreases phases@.len() - i,
    {
        assert(phases@.take(i + 1).drop_last() =~= phases@.take(i as int));
        if phases[i] == PhaseKind::Deadlettered {
            n = n + 1;
        }
        i = i + 1;
    }
    assert(phases@.take(phases@.len() as int) =~= phases@);
    n
}

/// Exactly the succeeded, skipped and deadlettered jobs are done; a job
/// that is pending, gated, ready, running, failed, retrying or waiting for
/// an operator may still move.
pub proof fn lemma_terminal_phases(p: PhaseKind)
    ensures
        is_terminal(p) <==> (p is Succeeded || p is Skipped || p is Deadlettered),
        !is_terminal(PhaseKind::Pending),
        !is_terminal(PhaseKind::Gated),
        !is_terminal(PhaseKind::Ready),
        !is_terminal(PhaseKind::Running),
        !is_terminal(PhaseKind::Failed),
        !is_terminal(PhaseKind::Retrying),
        !is_terminal(PhaseKind::WaitingForOperator),
{
}

/// The deadletter count is the number of positions holding a
/// deadlettered job: no other phase is counted, and a pipeline with no
/// deadlettered job counts zero.
pub proof fn lemma_deadlettered_counts_positions(phases: Seq<PhaseKind>)
    ensures
        deadlettered_in(phases) == phases.filter(|p: PhaseKind| p is Deadlettered).len(),
        deadlettered_in(phases) <= phases.len(),
        (forall|i: int| 0 <= i < phases.len() ==> !(#[trigger] phases[i] is Deadlettered)) ==> deadlettered_in(phases) == 0,
    decreases phases.len(),
{
    reveal(Seq::filter);
    if phases.len() > 0 {
        lemma_deadlettered_counts_positions(phases.drop_last());
        if forall|i: int| 0 <= i < phases.len() ==> !(#[trigger] phases[i] is Deadlettered) {
            assert forall|i: int| 0 <= i < phases.drop_last().len() implies !(#[trigger] phases.drop_last()[i] is Deadlettered) by {
                assert(phases.drop_last()[i] == phases[i]);
            }
        }
    }
}

} // verus!
