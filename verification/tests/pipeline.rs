use ponte::pipeline::{all_terminal, count_deadlettered, phase_is_terminal, PhaseKind};

#[test]
fn terminal_phases() {
    assert!(phase_is_terminal(PhaseKind::Succeeded));
    assert!(phase_is_terminal(PhaseKind::Skipped));
    assert!(phase_is_terminal(PhaseKind::Deadlettered));
    assert!(!phase_is_terminal(PhaseKind::Retrying));
    assert!(!phase_is_terminal(PhaseKind::Pending));
}

#[test]
fn pipeline_done_only_when_all_terminal() {
    assert!(all_terminal(&vec![PhaseKind::Succeeded, PhaseKind::Skipped, PhaseKind::Deadlettered]));
    assert!(!all_terminal(&vec![PhaseKind::Succeeded, PhaseKind::Running]));
    assert!(all_terminal(&vec![]));
}

#[test]
fn deadlettered_jobs_are_counted() {
    assert_eq!(count_deadlettered(&vec![PhaseKind::Deadlettered, PhaseKind::Succeeded, PhaseKind::Deadlettered]), 2);
    assert_eq!(count_deadlettered(&vec![PhaseKind::Succeeded]), 0);
}
