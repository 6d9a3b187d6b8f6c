use workflow::lifecycle::{TaskEvent, TaskState, TaskStatus};

fn claim_and_fail(state: &mut TaskState) {
    state.apply(TaskEvent::Claim { now: 0 });
    let attempt = state.retries;
    if state.max_retries > 0 {
        state.apply(TaskEvent::Retry { attempt });
    } else {
        state.apply(TaskEvent::Fail { attempt });
    }
}

#[test]
fn new_task_is_pending_without_retries() {
    let state = TaskState::new(3, 30);
    assert_eq!(state.status, TaskStatus::Pending);
    assert_eq!(state.retries, 0);
    assert_eq!(state.max_retries, 3);
    assert_eq!(state.timeout_secs, 30);
}

#[test]
fn claim_moves_pending_to_running() {
    let mut state = TaskState::new(0, 10);
    assert!(state.apply(TaskEvent::Claim { now: 42 }));
    assert_eq!(state.status, TaskStatus::Running);
    assert_eq!(state.started_at, 42);
    assert!(!state.apply(TaskEvent::Claim { now: 43 }));
    assert_eq!(state.started_at, 42);
}

#[test]
fn pending_task_takes_no_report() {
    let mut state = TaskState::new(2, 10);
    let before = state;
    assert!(!state.apply(TaskEvent::Done { attempt: 0 }));
    assert!(!state.apply(TaskEvent::Retry { attempt: 0 }));
    assert!(!state.apply(TaskEvent::Fail { attempt: 0 }));
    assert!(!state.apply(TaskEvent::Scan { now: 1_000_000 }));
    assert_eq!(state, before);
}

#[test]
fn done_and_failed_are_terminal() {
    let events = [
        TaskEvent::Claim { now: 7 },
        TaskEvent::Done { attempt: 0 },
        TaskEvent::Retry { attempt: 0 },
        TaskEvent::Fail { attempt: 0 },
        TaskEvent::Scan { now: 1_000_000 },
    ];
    let mut done = TaskState::new(3, 10);
    done.apply(TaskEvent::Claim { now: 0 });
    assert!(done.apply(TaskEvent::Done { attempt: 0 }));
    assert_eq!(done.status, TaskStatus::Done);
    let mut failed = TaskState::new(3, 10);
    failed.apply(TaskEvent::Claim { now: 0 });
    assert!(failed.apply(TaskEvent::Fail { attempt: 0 }));
    assert_eq!(failed.status, TaskStatus::Failed);
    for event in events {
        let before = done;
        assert!(!done.apply(event));
        assert_eq!(done, before);
        let before = failed;
        assert!(!failed.apply(event));
        assert_eq!(failed, before);
    }
}

#[test]
fn report_of_an_earlier_attempt_is_ignored() {
    let mut state = TaskState::new(2, 10);
    state.apply(TaskEvent::Claim { now: 0 });
    assert!(state.apply(TaskEvent::Retry { attempt: 0 }));
    assert_eq!(state.status, TaskStatus::Pending);
    assert_eq!(state.retries, 1);
    state.apply(TaskEvent::Claim { now: 5 });
    assert!(!state.apply(TaskEvent::Done { attempt: 0 }));
    assert_eq!(state.status, TaskStatus::Running);
    assert!(state.apply(TaskEvent::Done { attempt: 1 }));
    assert_eq!(state.status, TaskStatus::Done);
    assert!(!state.apply(TaskEvent::Done { attempt: 1 }));
}

#[test]
fn retries_are_exhausted_after_one_more_failure_than_granted() {
    let mut state = TaskState::new(2, 10);
    claim_and_fail(&mut state);
    assert_eq!((state.status, state.retries), (TaskStatus::Pending, 1));
    claim_and_fail(&mut state);
    assert_eq!((state.status, state.retries), (TaskStatus::Pending, 2));
    claim_and_fail(&mut state);
    assert_eq!((state.status, state.retries), (TaskStatus::Failed, 2));
    claim_and_fail(&mut state);
    assert_eq!((state.status, state.retries), (TaskStatus::Failed, 2));
}

#[test]
fn task_without_retries_fails_at_once() {
    let mut state = TaskState::new(0, 10);
    claim_and_fail(&mut state);
    assert_eq!((state.status, state.retries), (TaskStatus::Failed, 0));
}

#[test]
fn scan_reclaims_strictly_after_the_timeout() {
    let mut state = TaskState::new(1, 30);
    state.apply(TaskEvent::Claim { now: 100 });
    assert!(!state.is_overdue(100));
    assert!(!state.is_overdue(130));
    assert!(state.is_overdue(131));
    assert!(!state.apply(TaskEvent::Scan { now: 130 }));
    assert_eq!((state.status, state.retries), (TaskStatus::Running, 0));
    assert!(state.apply(TaskEvent::Scan { now: 131 }));
    assert_eq!((state.status, state.retries), (TaskStatus::Pending, 1));
}

#[test]
fn scan_fails_an_overdue_task_without_retries_left() {
    let mut state = TaskState::new(1, 30);
    state.apply(TaskEvent::Claim { now: 0 });
    assert!(state.apply(TaskEvent::Scan { now: 31 }));
    state.apply(TaskEvent::Claim { now: 40 });
    assert!(state.apply(TaskEvent::Scan { now: 71 }));
    assert_eq!((state.status, state.retries), (TaskStatus::Failed, 1));
}

#[test]
fn scan_before_the_claim_time_reclaims_nothing() {
    let mut state = TaskState::new(1, 30);
    state.apply(TaskEvent::Claim { now: 100 });
    assert!(!state.is_overdue(50));
    assert!(!state.apply(TaskEvent::Scan { now: 50 }));
}

#[test]
fn negative_timeout_is_overdue_from_the_claim_on() {
    let mut state = TaskState::new(1, -5);
    state.apply(TaskEvent::Claim { now: 100 });
    assert!(state.is_overdue(100));
    assert!(state.is_overdue(96));
    assert!(!state.is_overdue(95));
}
