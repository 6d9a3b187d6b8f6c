//! The life of a task: pending, running, and then done, pending again for
//! another attempt, or failed for good.

use vstd::prelude::*;

verus! {

/// The status of a task.
#[derive(Clone, Copy, Debug, PartialEq, Eq, Structural)]
pub enum TaskStatus {
    Pending,
    Running,
    Done,
    Failed,
}

/// What can happen to a task.
#[derive(Clone, Copy, Debug, PartialEq, Eq, Structural)]
pub enum TaskEvent {
    /// A worker claims the task at the given time.
    Claim { now: u64 },
    /// The worker of the given attempt reports success.
    Done { attempt: i32 },
    /// The worker of the given attempt asks for another attempt.
    Retry { attempt: i32 },
    /// The worker of the given attempt reports a permanent failure.
    Fail { attempt: i32 },
    /// The scan for timed-out tasks looks at the task at the given time.
    Scan { now: u64 },
}

/// The scheduling state of a task.
#[derive(Clone, Copy, Debug, PartialEq, Eq, Structural)]
pub struct TaskState {
    pub status: TaskStatus,
    /// Attempts that ended without success so far.
    pub retries: i32,
    /// Attempts the task is granted beyond the first.
    pub max_retries: i32,
    /// Seconds a single attempt may run.
    pub timeout_secs: i32,
    /// Time of the last claim, in seconds.
    pub started_at: u64,
}

/// Whether the lifecycle has a step from `from` to `to`.
pub open spec fn lifecycle_step(from: TaskStatus, to: TaskStatus) -> bool {
    ||| from == TaskStatus::Pending && to == TaskStatus::Running
    ||| from == TaskStatus::Running && to == TaskStatus::Done
    ||| from == TaskStatus::Running && to == TaskStatus::Pending
    ||| from == TaskStatus::Running && to == TaskStatus::Failed
}

/// Whether a status is final.
pub open spec fn is_terminal(status: TaskStatus) -> bool {
    status == TaskStatus::Done || status == TaskStatus::Failed
}

impl TaskState {
    /// A task as it enters the queue.
    pub open spec fn spec_new(max_retries: i32, timeout_secs: i32) -> TaskState {
        TaskState {
            status: TaskStatus::Pending,
            retries: 0,
            max_retries,
            timeout_secs,
            started_at: 0,
        }
    }

    /// Whether the worker of `attempt` still holds the task: the task is
    /// running and has not been given to another attempt since.
    pub open spec fn held_by(self, attempt: i32) -> bool {
        self.status == TaskStatus::Running && self.retries == attempt
    }

    /// Whether the task has been running for longer than its timeout.
    pub open spec fn overdue(self, now: u64) -> bool {
        self.status == TaskStatus::Running && now - self.started_at > self.timeout_secs
    }

    /// The task after an attempt ended without success: pending with one
    /// more retry counted while retries remain, failed otherwise.
    pub open spec fn after_lost_attempt(self) -> TaskState {
        if self.retries < self.max_retries {
            TaskState { status: TaskStatus::Pending, retries: (self.retries + 1) as i32, ..self }
        } else {
            TaskState { status: TaskStatus::Failed, ..self }
        }
    }

    /// The state after an event. An event that does not apply to the
    /// current state changes nothing.
    pub open spec fn step(self, event: TaskEvent) -> TaskState {
        match event {
            TaskEvent::Claim { now } => if self.status == TaskStatus::Pending {
                TaskState { status: TaskStatus::Running, started_at: now, ..self }
            } else {
                self
            },
            TaskEvent::Done { attempt } => if self.held_by(attempt) {
                TaskState { status: TaskStatus::Done, ..self }
            } else {
                self
            },
            TaskEvent::Retry { attempt } => if self.held_by(attempt) {
                self.after_lost_attempt()
            } else {
                self
            },
            TaskEvent::Fail { attempt } => if self.held_by(attempt) {
                TaskState { status: TaskStatus::Failed, ..self }
            } else {
                self
            },
            TaskEvent::Scan { now } => if self.overdue(now) {
                self.after_lost_attempt()
            } else {
                self
            },
        }
    }

    /// Whether an event applies to the state, that is, changes it.
    pub open spec fn accepts(self, event: TaskEvent) -> bool {
        match event {
            TaskEvent::Claim { now } => self.status == TaskStatus::Pending,
            TaskEvent::Done { attempt } => self.held_by(attempt),
            TaskEvent::Retry { attempt } => self.held_by(attempt),
            TaskEvent::Fail { attempt } => self.held_by(attempt),
            TaskEvent::Scan { now } => self.overdue(now),
        }
    }

    /// What the agent does to a task whose handler failed: it asks for
    /// another attempt where the task was granted retries, and reports a
    /// permanent failure where it was not.
    pub open spec fn after_handler_failure(self, attempt: i32) -> TaskState {
        if self.max_retries > 0 {
            self.step(TaskEvent::Retry { attempt })
        } else {
            self.step(TaskEvent::Fail { attempt })
        }
    }

    /// The task after `rounds` consecutive attempts that each fail: every
    /// round the task is claimed and its handler fails.
    pub open spec fn after_failed_attempts(self, rounds: nat) -> TaskState
        decreases rounds,
    {
        if rounds == 0 {
            self
        } else {
            let before = self.after_failed_attempts((rounds - 1) as nat);
            let claimed = before.step(TaskEvent::Claim { now: 0 });
            claimed.after_handler_failure(claimed.retries)
        }
    }

    /// Creates the state of a task that enters the queue.
    pub fn new(max_retries: i32, timeout_secs: i32) -> (state: TaskState)
        ensures
            state == TaskState::spec_new(max_retries, timeout_secs),
    {
        TaskState {
            status: TaskStatus::Pending,
            retries: 0,
            max_retries,
            timeout_secs,
            started_at: 0,
        }
    }

    /// Whether the task has been running for longer than its timeout.
    pub fn is_overdue(&self, now: u64) -> (late: bool)
        ensures
            late == self.overdue(now),
    {
        match self.status {
            TaskStatus::Running => {
                if now >= self.started_at {
                    let elapsed: u64 = now - self.started_at;
                    self.timeout_secs < 0 || elapsed > self.timeout_secs as u64
                } else {
                    let ahead: u64 = self.started_at - now;
                    self.timeout_secs < 0 && ahead < 0x8000_0000 && ahead < (-(
                    self.timeout_secs as i64)) as u64
                }
            },
            _ => false,
        }
    }

    fn lose_attempt(&mut self)
        ensures
            *final(self) == old(self).after_lost_attempt(),
    {
        if self.retries < self.max_retries {
            self.status = TaskStatus::Pending;
            self.retries = self.retries + 1;
        } else {
            self.status = TaskStatus::Failed;
        }
    }

    /// Applies an event to the task and says whether it applied.
    pub fn apply(&mut self, event: TaskEvent) -> (applied: bool)
        ensures
            *final(self) == old(self).step(event),
            applied == old(self).accepts(event),
    {
        match event {
            TaskEvent::Claim { now } => {
                if self.status == TaskStatus::Pending {
                    self.status = TaskStatus::Running;
                    self.started_at = now;
                    true
                } else {
                    false
                }
            },
            TaskEvent::Done { attempt } => {
                if self.status == TaskStatus::Running && self.retries == attempt {
                    self.status = TaskStatus::Done;
                    true
                } else {
                    false
                }
            },
            TaskEvent::Retry { attempt } => {
                if self.status == TaskStatus::Running && self.retries == attempt {
                    self.lose_attempt();
                    true
                } else {
                    false
                }
            },
            TaskEvent::Fail { attempt } => {
                if self.status == TaskStatus::Running && self.retries == attempt {
                    self.status = TaskStatus::Failed;
                    true
                } else {
                    false
                }
            },
            TaskEvent::Scan { now } => {
                if self.is_overdue(now) {
                    self.lose_attempt();
                    true
                } else {
                    false
                }
            },
        }
    }
}

/// Every event either leaves the status as it is or moves it along a step
/// of the lifecycle: from pending to running, and from running to done,
/// back to pending, or to failed.
pub proof fn lemma_events_follow_lifecycle(state: TaskState, event: TaskEvent)
    ensures
        state.step(event).status == state.status || lifecycle_step(
            state.status,
            state.step(event).status,
        ),
        state.accepts(event) ==> lifecycle_step(state.status, state.step(event).status),
        !state.accepts(event) ==> state.step(event) == state,
{
}

/// Done and failed are final: no event changes a task in either status.
pub proof fn lemma_terminal_is_final(state: TaskState, event: TaskEvent)
    requires
        is_terminal(state.status),
    ensures
        state.step(event) == state,
        !state.accepts(event),
{
}

/// An event never changes what the task was configured with, and counts at
/// most one more retry.
pub proof fn lemma_events_keep_configuration(state: TaskState, event: TaskEvent)
    ensures
        state.step(event).max_retries == state.max_retries,
        state.step(event).timeout_secs == state.timeout_secs,
        state.step(event).retries == state.retries || state.step(event).retries == state.retries
            + 1,
{
}

/// A task that is reclaimed by the scan was running strictly longer than its
/// timeout; it returns to pending with exactly one more retry counted, or
/// fails where no retry remains.
pub proof fn lemma_scan_reclaims_overdue_only(state: TaskState, now: u64)
    ensures
        state.step(TaskEvent::Scan { now }) != state ==> state.status == TaskStatus::Running && now
            - state.started_at > state.timeout_secs,
        state.step(TaskEvent::Scan { now }).status == TaskStatus::Pending && state.status
            != TaskStatus::Pending ==> state.step(TaskEvent::Scan { now }).retries == state.retries
            + 1,
        state.overdue(now) && state.retries < state.max_retries ==> state.step(
            TaskEvent::Scan { now },
        ).status == TaskStatus::Pending,
        state.overdue(now) && state.retries >= state.max_retries ==> state.step(
            TaskEvent::Scan { now },
        ).status == TaskStatus::Failed,
{
}

/// A completion that arrives late is rejected: once a running task has been
/// reclaimed by the scan and claimed again, the report of the worker that
/// held it before changes nothing, whatever that worker reports.
pub proof fn lemma_stale_report_is_rejected(
    state: TaskState,
    attempt: i32,
    scanned_at: u64,
    claimed_at: u64,
)
    requires
        state.held_by(attempt),
        state.overdue(scanned_at),
    ensures
        ({
            let reclaimed = state.step(TaskEvent::Scan { now: scanned_at });
            let claimed = reclaimed.step(TaskEvent::Claim { now: claimed_at });
            &&& !claimed.held_by(attempt)
            &&& claimed.step(TaskEvent::Done { attempt }) == claimed
            &&& claimed.step(TaskEvent::Retry { attempt }) == claimed
            &&& claimed.step(TaskEvent::Fail { attempt }) == claimed
        }),
{
}

/// While retries remain, a fresh task that has failed `rounds` times in a row
/// is pending again with `rounds` retries counted.
pub proof fn lemma_failures_within_budget(max_retries: i32, timeout_secs: i32, rounds: nat)
    requires
        rounds <= max_retries,
    ensures
        TaskState::spec_new(max_retries, timeout_secs).after_failed_attempts(rounds) == (TaskState {
            retries: rounds as i32,
            ..TaskState::spec_new(max_retries, timeout_secs)
        }),
    decreases rounds,
{
    if rounds > 0 {
        lemma_failures_within_budget(max_retries, timeout_secs, (rounds - 1) as nat);
    }
}

/// Retry exhaustion: a fresh task granted `max_retries` retries that fails
/// `max_retries + 1` times in a row is failed, and however many more rounds
/// are tried it stays as it is: it is never claimed again.
pub proof fn lemma_retry_exhaustion(max_retries: i32, timeout_secs: i32, more: nat)
    requires
        max_retries >= 0,
    ensures
        TaskState::spec_new(max_retries, timeout_secs).after_failed_attempts(
            (max_retries + 1) as nat,
        ).status == TaskStatus::Failed,
        TaskState::spec_new(max_retries, timeout_secs).after_failed_attempts(
            (max_retries + 1) as nat,
        ).retries == max_retries,
        TaskState::spec_new(max_retries, timeout_secs).after_failed_attempts(
            (max_retries + 1 + more) as nat,
        ) == TaskState::spec_new(max_retries, timeout_secs).after_failed_attempts(
            (max_retries + 1) as nat,
        ),
    decreases more,
{
    lemma_failures_within_budget(max_retries, timeout_secs, max_retries as nat);
    if more > 0 {
        lemma_retry_exhaustion(max_retries, timeout_secs, (more - 1) as nat);
    }
}

} // verus!
