use verify_screen::status::Progress;
use verify_screen::status::TableComputationStatus;
use verify_screen::status::accept_status;

#[test]
fn status_line_per_state() {
    assert_eq!(
        TableComputationStatus::New.status_text(),
        "Computation starting..."
    );
    let geiger = TableComputationStatus::ComputingGeiger {
        progress: Progress { done: 0, total: 15 },
    };
    assert_eq!(geiger.status_text(), "Computing Geiger : *0* / 15");
    let trust = TableComputationStatus::ComputingTrust {
        progress: Progress { done: 3, total: 10 },
    };
    assert_eq!(trust.status_text(), "Computing Trust : *3* / 10");
    assert_eq!(
        TableComputationStatus::Done.status_text(),
        "Computation finished"
    );
}

#[test]
fn only_new_is_before_deps() {
    assert!(TableComputationStatus::New.is_before_deps());
    let geiger = TableComputationStatus::ComputingGeiger {
        progress: Progress { done: 1, total: 2 },
    };
    assert!(!geiger.is_before_deps());
    assert!(!TableComputationStatus::Done.is_before_deps());
}

#[test]
fn forward_transitions_are_adopted() {
    let geiger = TableComputationStatus::ComputingGeiger {
        progress: Progress { done: 5, total: 9 },
    };
    assert_eq!(accept_status(TableComputationStatus::New, geiger), geiger);
    assert_eq!(
        accept_status(geiger, TableComputationStatus::Done),
        TableComputationStatus::Done
    );
}

#[test]
fn progress_updates_within_a_phase_are_adopted() {
    let before = TableComputationStatus::ComputingGeiger {
        progress: Progress { done: 2, total: 9 },
    };
    let after = TableComputationStatus::ComputingGeiger {
        progress: Progress { done: 3, total: 9 },
    };
    assert_eq!(accept_status(before, after), after);
}

#[test]
fn backward_transitions_are_ignored() {
    let geiger = TableComputationStatus::ComputingGeiger {
        progress: Progress { done: 5, total: 9 },
    };
    let trust = TableComputationStatus::ComputingTrust {
        progress: Progress { done: 0, total: 9 },
    };
    assert_eq!(accept_status(trust, geiger), trust);
    assert_eq!(
        accept_status(TableComputationStatus::Done, TableComputationStatus::New),
        TableComputationStatus::Done
    );
}
