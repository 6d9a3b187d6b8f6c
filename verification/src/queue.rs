//! The task queue: the tasks of all jobs with their scheduling state.
//!
//! A task enters the queue only once every task it depends on is done, so a
//! pending task is always ready to be claimed. The state of a task changes
//! through the events of its lifecycle and in no other way.

use vstd::prelude::*;
use vstd::string::StringExecFns;
use crate::lifecycle::{lifecycle_step, TaskEvent, TaskState, TaskStatus};
use crate::search::{first_index, lemma_first_index, lemma_first_index_at, lemma_first_index_none};
use crate::stream::{
    lemma_find_stream, lemma_remote_streams, remote_streams_after, stream_id_given,
    streams_after_request, RemoteStreams, StreamTable, StreamView, REMOTE_OWNER,
};
use crate::work::{CompressType, ExecutorResp, Stage, TaskType, TaskTypeView, WorkType};

verus! {

/// The id of the task a job starts with.
pub const INIT_TASK: u64 = 0;

/// What a finished task leaves behind.
#[derive(Clone, Copy, Debug, PartialEq, Eq, Structural)]
pub enum TaskOutput {
    /// The totals found by the executor.
    Executor(ExecutorResp),
    /// A result the queue does not look into.
    Opaque,
}

/// Why the queue refuses to create a task.
#[derive(Clone, Copy, Debug, PartialEq, Eq, Structural)]
pub enum QueueError {
    /// The stream does not exist.
    UnknownStream,
    /// The job has a task with this id already.
    DuplicateTask,
    /// The job exists already.
    JobExists,
    /// A task that the new task depends on is missing or not done.
    PrerequisiteNotDone,
}

/// A task in the queue.
#[derive(Debug, PartialEq, Eq)]
pub struct TaskRecord {
    pub job_id: u128,
    pub task_id: u64,
    pub stream_id: usize,
    pub task_def: TaskType,
    pub prerequisites: Vec<u64>,
    pub state: TaskState,
    pub output: Option<TaskOutput>,
    pub error: Option<String>,
}

/// Mathematical content of a [`TaskRecord`].
pub struct TaskRecordView {
    pub job_id: u128,
    pub task_id: u64,
    pub stream_id: usize,
    pub task_def: TaskTypeView,
    pub prerequisites: Seq<u64>,
    pub state: TaskState,
    pub output: Option<TaskOutput>,
    pub error: Option<Seq<char>>,
}

impl View for TaskRecord {
    type V = TaskRecordView;

    open spec fn view(&self) -> TaskRecordView {
        TaskRecordView {
            job_id: self.job_id,
            task_id: self.task_id,
            stream_id: self.stream_id,
            task_def: self.task_def@,
            prerequisites: self.prerequisites@,
            state: self.state,
            output: self.output,
            error: match self.error {
                Some(e) => Some(e@),
                None => None,
            },
        }
    }
}

/// Where a job stands.
#[derive(Clone, Copy, Debug, PartialEq, Eq, Structural)]
pub enum JobStatus {
    /// Some task of the job is not done yet, or the last stage is yet to come.
    Running,
    /// Every task of the job is done, the last stage among them.
    Done,
    /// A task of the job failed for good.
    Failed,
}

/// A task handed to a worker.
#[derive(Debug, PartialEq, Eq)]
pub struct ReadyTask {
    pub job_id: u128,
    pub task_id: u64,
    pub task_def: TaskType,
    /// The attempt this claim stands for; reports of the worker carry it.
    pub attempt: i32,
    pub max_retries: i32,
}

/// Mathematical content of the queue.
pub struct TaskQueueView {
    pub streams: Seq<StreamView>,
    pub tasks: Seq<TaskRecordView>,
}

/// Whether a record is the task `task_id` of job `job_id`.
pub open spec fn is_task(r: TaskRecordView, job_id: u128, task_id: u64) -> bool {
    r.job_id == job_id && r.task_id == task_id
}

/// Whether a record is the task `task_id` of job `job_id` and done.
pub open spec fn is_done_task(r: TaskRecordView, job_id: u128, task_id: u64) -> bool {
    is_task(r, job_id, task_id) && r.state.status == TaskStatus::Done
}

/// Whether the queue holds the task and the task is done.
pub open spec fn is_done(tasks: Seq<TaskRecordView>, job_id: u128, task_id: u64) -> bool {
    exists|d: int| 0 <= d < tasks.len() && is_done_task(#[trigger] tasks[d], job_id, task_id)
}

/// Whether all of the given tasks of a job are in the queue and done.
pub open spec fn all_done(tasks: Seq<TaskRecordView>, job_id: u128, ids: Seq<u64>) -> bool {
    forall|k: int| 0 <= k < ids.len() ==> is_done(tasks, job_id, #[trigger] ids[k])
}

/// Whether the `k`-th prerequisite of the `i`-th task is done.
pub open spec fn prerequisite_done(tasks: Seq<TaskRecordView>, i: int, k: int) -> bool {
    is_done(tasks, tasks[i].job_id, tasks[i].prerequisites[k])
}

/// Whether two records are different tasks.
pub open spec fn differ(a: TaskRecordView, b: TaskRecordView) -> bool {
    a.job_id != b.job_id || a.task_id != b.task_id
}

/// Whether the record belongs to the job.
pub open spec fn in_job(r: TaskRecordView, job_id: u128) -> bool {
    r.job_id == job_id
}

/// The invariant of the queue: no task is held twice, every task is on a
/// stream that exists, and every prerequisite of every task is done.
pub open spec fn queue_wf(q: TaskQueueView) -> bool {
    &&& forall|i: int, j: int|
        0 <= i < j < q.tasks.len() ==> differ(#[trigger] q.tasks[i], #[trigger] q.tasks[j])
    &&& forall|i: int| 0 <= i < q.tasks.len() ==> (#[trigger] q.tasks[i]).stream_id < q.streams.len()
    &&& forall|i: int, k: int|
        0 <= i < q.tasks.len() && 0 <= k < q.tasks[i].prerequisites.len()
            ==> #[trigger] prerequisite_done(q.tasks, i, k)
}

/// The position of a task in the queue.
pub open spec fn task_index(tasks: Seq<TaskRecordView>, job_id: u128, task_id: u64) -> Option<int> {
    first_index(tasks, |r: TaskRecordView| is_task(r, job_id, task_id))
}

/// The position of some task of the job in the queue.
pub open spec fn job_index(tasks: Seq<TaskRecordView>, job_id: u128) -> Option<int> {
    first_index(tasks, |r: TaskRecordView| in_job(r, job_id))
}

/// The record of a task as it enters the queue.
pub open spec fn fresh_record(
    job_id: u128,
    task_id: u64,
    stream_id: usize,
    task_def: TaskTypeView,
    prerequisites: Seq<u64>,
    max_retries: i32,
    timeout_secs: i32,
) -> TaskRecordView {
    TaskRecordView {
        job_id,
        task_id,
        stream_id,
        task_def,
        prerequisites,
        state: TaskState::spec_new(max_retries, timeout_secs),
        output: None,
        error: None,
    }
}

/// The reason for which a task cannot be created, if there is one.
pub open spec fn create_task_refusal(
    q: TaskQueueView,
    job_id: u128,
    task_id: u64,
    stream_id: usize,
    prerequisites: Seq<u64>,
) -> Option<QueueError> {
    if stream_id >= q.streams.len() {
        Some(QueueError::UnknownStream)
    } else if task_index(q.tasks, job_id, task_id).is_some() {
        Some(QueueError::DuplicateTask)
    } else if !all_done(q.tasks, job_id, prerequisites) {
        Some(QueueError::PrerequisiteNotDone)
    } else {
        None
    }
}

/// The reason for which a job cannot be created, if there is one.
pub open spec fn create_job_refusal(q: TaskQueueView, job_id: u128, stream_id: usize) -> Option<
    QueueError,
> {
    if stream_id >= q.streams.len() {
        Some(QueueError::UnknownStream)
    } else if job_index(q.tasks, job_id).is_some() {
        Some(QueueError::JobExists)
    } else {
        None
    }
}

/// What `task_index` finds is the task, and it finds it wherever the queue
/// holds it.
pub proof fn lemma_task_index(tasks: Seq<TaskRecordView>, job_id: u128, task_id: u64)
    ensures
        match task_index(tasks, job_id, task_id) {
            Some(i) => 0 <= i < tasks.len() && is_task(tasks[i], job_id, task_id) && forall|j: int|
                0 <= j < i ==> !is_task(#[trigger] tasks[j], job_id, task_id),
            None => forall|j: int|
                0 <= j < tasks.len() ==> !is_task(#[trigger] tasks[j], job_id, task_id),
        },
{
    let p = |r: TaskRecordView| is_task(r, job_id, task_id);
    lemma_first_index(tasks, p);
}

proof fn lemma_task_index_at(tasks: Seq<TaskRecordView>, job_id: u128, task_id: u64, i: int)
    requires
        0 <= i < tasks.len(),
        is_task(tasks[i], job_id, task_id),
        forall|j: int| 0 <= j < i ==> !is_task(#[trigger] tasks[j], job_id, task_id),
    ensures
        task_index(tasks, job_id, task_id) == Some(i),
{
    let p = |r: TaskRecordView| is_task(r, job_id, task_id);
    lemma_first_index_at(tasks, p, i);
}

proof fn lemma_task_index_none(tasks: Seq<TaskRecordView>, job_id: u128, task_id: u64)
    requires
        forall|j: int| 0 <= j < tasks.len() ==> !is_task(#[trigger] tasks[j], job_id, task_id),
    ensures
        task_index(tasks, job_id, task_id).is_none(),
{
    let p = |r: TaskRecordView| is_task(r, job_id, task_id);
    lemma_first_index_none(tasks, p);
}

proof fn lemma_job_index_at(tasks: Seq<TaskRecordView>, job_id: u128, i: int)
    requires
        0 <= i < tasks.len(),
        in_job(tasks[i], job_id),
        forall|j: int| 0 <= j < i ==> !in_job(#[trigger] tasks[j], job_id),
    ensures
        job_index(tasks, job_id) == Some(i),
{
    let p = |r: TaskRecordView| in_job(r, job_id);
    lemma_first_index_at(tasks, p, i);
}

proof fn lemma_job_index_none(tasks: Seq<TaskRecordView>, job_id: u128)
    requires
        forall|j: int| 0 <= j < tasks.len() ==> !in_job(#[trigger] tasks[j], job_id),
    ensures
        job_index(tasks, job_id).is_none(),
{
    let p = |r: TaskRecordView| in_job(r, job_id);
    lemma_first_index_none(tasks, p);
}

/// No premature readiness: a task is in the queue only if every task it
/// depends on is in the queue and done.
pub proof fn lemma_no_premature_task(q: TaskQueueView, i: int, k: int)
    requires
        queue_wf(q),
        0 <= i < q.tasks.len(),
        0 <= k < q.tasks[i].prerequisites.len(),
    ensures
        exists|d: int|
            0 <= d < q.tasks.len() && (#[trigger] q.tasks[d]).job_id == q.tasks[i].job_id
                && q.tasks[d].task_id == q.tasks[i].prerequisites[k] && q.tasks[d].state.status
                == TaskStatus::Done,
{
    assert(prerequisite_done(q.tasks, i, k));
}

/// Whether `after` holds the tasks of `before` with nothing changed but
/// scheduling state, output and error, and with every done task still done.
pub open spec fn progressed(before: Seq<TaskRecordView>, after: Seq<TaskRecordView>) -> bool {
    &&& after.len() == before.len()
    &&& forall|i: int|
        0 <= i < before.len() ==> {
            &&& (#[trigger] after[i]).job_id == before[i].job_id
            &&& after[i].task_id == before[i].task_id
            &&& after[i].stream_id == before[i].stream_id
            &&& after[i].prerequisites == before[i].prerequisites
            &&& before[i].state.status == TaskStatus::Done ==> after[i].state.status
                == TaskStatus::Done
        }
}

/// The invariant of the queue survives any change to the scheduling state of
/// its tasks that keeps done tasks done.
pub proof fn lemma_progress_keeps_wf(before: TaskQueueView, after: TaskQueueView)
    requires
        queue_wf(before),
        after.streams == before.streams,
        progressed(before.tasks, after.tasks),
    ensures
        queue_wf(after),
{
    assert forall|i: int, k: int|
        0 <= i < after.tasks.len() && 0 <= k < after.tasks[i].prerequisites.len()
            implies #[trigger] prerequisite_done(after.tasks, i, k) by {
        assert(prerequisite_done(before.tasks, i, k));
        let d = choose|d: int|
            0 <= d < before.tasks.len() && is_done_task(
                #[trigger] before.tasks[d],
                before.tasks[i].job_id,
                before.tasks[i].prerequisites[k],
            );
        assert(is_done_task(after.tasks[d], after.tasks[i].job_id, after.tasks[i].prerequisites[k]));
    }
}

/// Whether the job asks for a wrapped proof: it was started by the executor
/// with that compression.
pub open spec fn job_wraps(tasks: Seq<TaskRecordView>, job_id: u128) -> bool {
    match task_index(tasks, job_id, INIT_TASK) {
        Some(i) => match tasks[i].task_def {
            TaskTypeView::Executor(r) => r.compress == CompressType::Groth16,
            _ => false,
        },
        None => false,
    }
}

/// Whether the job ends with the execution.
pub open spec fn job_executes_only(tasks: Seq<TaskRecordView>, job_id: u128) -> bool {
    match task_index(tasks, job_id, INIT_TASK) {
        Some(i) => match tasks[i].task_def {
            TaskTypeView::Executor(r) => r.execute_only,
            _ => false,
        },
        None => false,
    }
}

/// Whether a stage is the last one of a job: wrapping always is, finalizing
/// unless a wrapped proof is asked for, executing where nothing else is.
pub open spec fn is_last_stage(stage: Stage, wraps: bool, executes_only: bool) -> bool {
    match stage {
        Stage::Snark => true,
        Stage::Finalize => !wraps,
        Stage::Executor => executes_only,
        _ => false,
    }
}

/// Whether the record is a task of the job that failed for good.
pub open spec fn is_failed_in(r: TaskRecordView, job_id: u128) -> bool {
    r.job_id == job_id && r.state.status == TaskStatus::Failed
}

/// Whether the record is a task of the job that is not done.
pub open spec fn is_open_in(r: TaskRecordView, job_id: u128) -> bool {
    r.job_id == job_id && r.state.status != TaskStatus::Done
}

/// Whether the record is the done task of the last stage of the job.
pub open spec fn is_end_of(r: TaskRecordView, job_id: u128, wraps: bool, executes_only: bool) -> bool {
    r.job_id == job_id && r.state.status == TaskStatus::Done && is_last_stage(
        r.task_def.stage(),
        wraps,
        executes_only,
    )
}

/// Where a job stands, if the queue holds a task of it. A job fails with
/// any of its tasks. It is done once all its tasks are done and the last
/// stage is among them.
pub open spec fn job_status(tasks: Seq<TaskRecordView>, job_id: u128) -> Option<JobStatus> {
    if forall|i: int| 0 <= i < tasks.len() ==> !in_job(#[trigger] tasks[i], job_id) {
        None
    } else if exists|i: int| 0 <= i < tasks.len() && is_failed_in(#[trigger] tasks[i], job_id) {
        Some(JobStatus::Failed)
    } else if (forall|i: int| 0 <= i < tasks.len() ==> !is_open_in(#[trigger] tasks[i], job_id))
        && exists|i: int|
        0 <= i < tasks.len() && is_end_of(
            #[trigger] tasks[i],
            job_id,
            job_wraps(tasks, job_id),
            job_executes_only(tasks, job_id),
        ) {
        Some(JobStatus::Done)
    } else {
        Some(JobStatus::Running)
    }
}

/// A record with another scheduling state.
pub open spec fn with_state(r: TaskRecordView, state: TaskState) -> TaskRecordView {
    TaskRecordView { state, ..r }
}

/// Whether a worker for `work_type` can claim the task: it is pending and
/// queued on a stream for that kind of work.
pub open spec fn claimable(r: TaskRecordView, streams: Seq<StreamView>, work_type: WorkType) -> bool {
    r.state.status == TaskStatus::Pending && r.stream_id < streams.len()
        && streams[r.stream_id as int].work_type == work_type
}

/// The position of the task that a worker for `work_type` is given next: the
/// oldest task it can claim.
pub open spec fn next_ready(q: TaskQueueView, work_type: WorkType) -> Option<int> {
    first_index(q.tasks, |r: TaskRecordView| claimable(r, q.streams, work_type))
}

/// A record after a report of its worker. A report that the task does not
/// accept leaves the record as it is, output and error included.
pub open spec fn settled(
    r: TaskRecordView,
    event: TaskEvent,
    output: Option<TaskOutput>,
    error: Option<Seq<char>>,
) -> TaskRecordView {
    if r.state.accepts(event) {
        TaskRecordView {
            state: r.state.step(event),
            output: if output.is_some() {
                output
            } else {
                r.output
            },
            error: if error.is_some() {
                error
            } else {
                r.error
            },
            ..r
        }
    } else {
        r
    }
}

/// The tasks after a report on the task `task_id` of job `job_id`. A report
/// on a task that the queue does not hold changes nothing.
pub open spec fn after_report(
    tasks: Seq<TaskRecordView>,
    job_id: u128,
    task_id: u64,
    event: TaskEvent,
    output: Option<TaskOutput>,
    error: Option<Seq<char>>,
) -> Seq<TaskRecordView> {
    match task_index(tasks, job_id, task_id) {
        Some(i) => tasks.update(i, settled(tasks[i], event, output, error)),
        None => tasks,
    }
}

/// Whether the queue holds the task and the task accepts the event.
pub open spec fn report_applies(
    tasks: Seq<TaskRecordView>,
    job_id: u128,
    task_id: u64,
    event: TaskEvent,
) -> bool {
    match task_index(tasks, job_id, task_id) {
        Some(i) => tasks[i].state.accepts(event),
        None => false,
    }
}

/// The number of tasks among the first `upto` that are overdue at `now`.
pub open spec fn overdue_before(tasks: Seq<TaskRecordView>, now: u64, upto: int) -> nat
    decreases upto,
{
    if upto <= 0 {
        0
    } else {
        overdue_before(tasks, now, upto - 1) + if tasks[upto - 1].state.overdue(now) {
            1nat
        } else {
            0nat
        }
    }
}

/// Whether the scan at `now` with the given limit reclaims the `i`-th task:
/// the task is overdue and fewer than `limit` overdue tasks stand before it.
pub open spec fn reclaimed(tasks: Seq<TaskRecordView>, now: u64, limit: nat, i: int) -> bool {
    tasks[i].state.overdue(now) && overdue_before(tasks, now, i) < limit
}

/// The tasks after the scan for timed-out tasks at `now`: the first `limit`
/// overdue tasks have lost their attempt, every other task is as it was.
pub open spec fn after_scan(tasks: Seq<TaskRecordView>, now: u64, limit: nat) -> Seq<
    TaskRecordView,
> {
    Seq::new(
        tasks.len(),
        |i: int|
            if reclaimed(tasks, now, limit, i) {
                with_state(tasks[i], tasks[i].state.step(TaskEvent::Scan { now }))
            } else {
                tasks[i]
            },
    )
}

/// The number of tasks that the scan reclaims.
pub open spec fn scan_count(tasks: Seq<TaskRecordView>, now: u64, limit: nat) -> nat {
    if overdue_before(tasks, now, tasks.len() as int) < limit {
        overdue_before(tasks, now, tasks.len() as int)
    } else {
        limit
    }
}

/// The scan reclaims only tasks that have been running strictly longer than
/// their timeout, returns each to pending with exactly one more retry
/// counted, or fails it where no retry remains, and touches nothing else.
pub proof fn lemma_scan_reclaims_overdue(tasks: Seq<TaskRecordView>, now: u64, limit: nat, i: int)
    requires
        0 <= i < tasks.len(),
    ensures
        after_scan(tasks, now, limit).len() == tasks.len(),
        after_scan(tasks, now, limit)[i] != tasks[i] ==> {
            &&& tasks[i].state.status == TaskStatus::Running
            &&& now - tasks[i].state.started_at > tasks[i].state.timeout_secs
            &&& after_scan(tasks, now, limit)[i] == with_state(
                tasks[i],
                tasks[i].state.after_lost_attempt(),
            )
            &&& tasks[i].state.retries < tasks[i].state.max_retries ==> after_scan(
                tasks,
                now,
                limit,
            )[i].state.status == TaskStatus::Pending && after_scan(tasks, now, limit)[i].state.retries
                == tasks[i].state.retries + 1
            &&& tasks[i].state.retries >= tasks[i].state.max_retries ==> after_scan(
                tasks,
                now,
                limit,
            )[i].state.status == TaskStatus::Failed
        },
        scan_count(tasks, now, limit) <= limit,
{
}

/// Reports and scans move tasks along the lifecycle only: whatever is
/// reported on whichever task, and whenever the queue is scanned, the status
/// of every task stays as it is or takes one step of the lifecycle.
pub proof fn lemma_queue_follows_lifecycle(
    tasks: Seq<TaskRecordView>,
    job_id: u128,
    task_id: u64,
    event: TaskEvent,
    output: Option<TaskOutput>,
    error: Option<Seq<char>>,
    now: u64,
    limit: nat,
    i: int,
)
    requires
        0 <= i < tasks.len(),
    ensures
        after_report(tasks, job_id, task_id, event, output, error).len() == tasks.len(),
        after_scan(tasks, now, limit).len() == tasks.len(),
        ({
            let before = tasks[i].state.status;
            let reported = after_report(tasks, job_id, task_id, event, output, error)[i].state.status;
            let scanned = after_scan(tasks, now, limit)[i].state.status;
            &&& reported == before || lifecycle_step(before, reported)
            &&& scanned == before || lifecycle_step(before, scanned)
        }),
{
    lemma_task_index(tasks, job_id, task_id);
}

/// A task is held by one worker at a time: the task that is handed out is
/// running afterwards, and no request for work is given it while it runs.
pub proof fn lemma_claim_is_exclusive(q: TaskQueueView, first: WorkType, second: WorkType, now: u64)
    requires
        next_ready(q, first).is_some(),
    ensures
        ({
            let i = next_ready(q, first)->Some_0;
            let claimed = TaskQueueView {
                streams: q.streams,
                tasks: q.tasks.update(
                    i,
                    with_state(q.tasks[i], q.tasks[i].state.step(TaskEvent::Claim { now })),
                ),
            };
            &&& 0 <= i < q.tasks.len()
            &&& q.tasks[i].state.status == TaskStatus::Pending
            &&& claimed.tasks[i].state.status == TaskStatus::Running
            &&& next_ready(claimed, second) != Some(i)
        }),
{
    let p = |r: TaskRecordView| claimable(r, q.streams, first);
    lemma_first_index(q.tasks, p);
    let i = next_ready(q, first)->Some_0;
    let claimed = q.tasks.update(
        i,
        with_state(q.tasks[i], q.tasks[i].state.step(TaskEvent::Claim { now })),
    );
    let later = |r: TaskRecordView| claimable(r, q.streams, second);
    lemma_first_index(claimed, later);
}

proof fn lemma_next_ready_at(q: TaskQueueView, work_type: WorkType, i: int)
    requires
        0 <= i < q.tasks.len(),
        claimable(q.tasks[i], q.streams, work_type),
        forall|j: int| 0 <= j < i ==> !claimable(#[trigger] q.tasks[j], q.streams, work_type),
    ensures
        next_ready(q, work_type) == Some(i),
{
    let p = |r: TaskRecordView| claimable(r, q.streams, work_type);
    lemma_first_index_at(q.tasks, p, i);
}

proof fn lemma_next_ready_none(q: TaskQueueView, work_type: WorkType)
    requires
        forall|j: int|
            0 <= j < q.tasks.len() ==> !claimable(#[trigger] q.tasks[j], q.streams, work_type),
    ensures
        next_ready(q, work_type).is_none(),
{
    let p = |r: TaskRecordView| claimable(r, q.streams, work_type);
    lemma_first_index_none(q.tasks, p);
}

/// The task queue.
pub struct TaskQueue {
    streams: StreamTable,
    tasks: Vec<TaskRecord>,
}

impl View for TaskQueue {
    type V = TaskQueueView;

    closed spec fn view(&self) -> TaskQueueView {
        TaskQueueView {
            streams: self.streams@,
            tasks: Seq::new(self.tasks@.len(), |i: int| self.tasks@[i]@),
        }
    }
}

impl TaskQueue {
    /// The invariant of the queue holds.
    pub open spec fn wf(&self) -> bool {
        queue_wf(self@)
    }

    /// An empty queue.
    pub fn new() -> (q: Self)
        ensures
            q.wf(),
            q@.tasks == Seq::<TaskRecordView>::empty(),
            q@.streams == Seq::<StreamView>::empty(),
    {
        let q = TaskQueue { streams: StreamTable::new(), tasks: Vec::new() };
        q
    }

    /// The number of tasks in the queue.
    pub fn len(&self) -> (n: usize)
        ensures
            n == self@.tasks.len(),
    {
        self.tasks.len()
    }

    /// The number of streams of the queue.
    pub fn stream_count(&self) -> (n: usize)
        ensures
            n == self@.streams.len(),
    {
        self.streams.streams.len()
    }

    /// The id of the stream of `owner` for `work_type`, which is created
    /// where it does not exist.
    pub fn get_or_create_stream(&mut self, owner: &str, work_type: WorkType) -> (id: usize)
        requires
            old(self).wf(),
        ensures
            final(self).wf(),
            final(self)@.tasks == old(self)@.tasks,
            final(self)@.streams == streams_after_request(
                old(self)@.streams,
                owner@,
                work_type,
            ),
            id == stream_id_given(old(self)@.streams, owner@, work_type),
            id < final(self)@.streams.len(),
    {
        proof {
            lemma_find_stream(self@.streams, owner@, work_type);
        }
        let id = self.streams.get_or_create_stream(owner, work_type);
        id
    }

    /// The streams of the remote task channel, each created where it does
    /// not exist.
    pub fn remote_streams(&mut self) -> (ids: RemoteStreams)
        requires
            old(self).wf(),
        ensures
            final(self).wf(),
            final(self)@.tasks == old(self)@.tasks,
            final(self)@.streams == remote_streams_after(old(self)@.streams, 6),
            ids.exec_stream == stream_id_given(
                remote_streams_after(old(self)@.streams, 1),
                REMOTE_OWNER@,
                WorkType::Exec,
            ),
            ids.snark_stream == stream_id_given(
                remote_streams_after(old(self)@.streams, 5),
                REMOTE_OWNER@,
                WorkType::Snark,
            ),
            ids.exec_stream < final(self)@.streams.len(),
            ids.snark_stream < final(self)@.streams.len(),
            old(self)@.streams.len() <= final(self)@.streams.len(),
    {
        proof {
            lemma_remote_streams(old(self)@.streams);
        }
        let ids = self.streams.remote_streams();
        ids
    }

    /// The owner of the stream a task is queued on, if the queue holds the
    /// task.
    pub fn stream_owner(&self, job_id: u128, task_id: u64) -> (owner: Option<String>)
        requires
            self.wf(),
        ensures
            match task_index(self@.tasks, job_id, task_id) {
                Some(i) => owner.is_some() && owner->Some_0@
                    == self@.streams[self@.tasks[i].stream_id as int].owner,
                None => owner.is_none(),
            },
    {
        match self.position(job_id, task_id) {
            Some(i) => {
                let stream_id = self.tasks[i].stream_id;
                Some(self.streams.streams[stream_id].owner.clone())
            },
            None => None,
        }
    }

    fn position(&self, job_id: u128, task_id: u64) -> (at: Option<usize>)
        ensures
            match at {
                Some(i) => task_index(self@.tasks, job_id, task_id) == Some(i as int) && i
                    < self@.tasks.len() && is_task(self@.tasks[i as int], job_id, task_id),
                None => task_index(self@.tasks, job_id, task_id).is_none() && forall|j: int|
                    0 <= j < self@.tasks.len() ==> !is_task(
                        #[trigger] self@.tasks[j],
                        job_id,
                        task_id,
                    ),
            },
    {
        let mut i: usize = 0;
        while i < self.tasks.len()
            invariant
                i <= self.tasks@.len(),
                forall|j: int| 0 <= j < i ==> !is_task(#[trigger] self@.tasks[j], job_id, task_id),
            decreases self.tasks@.len() - i,
        {
            if self.tasks[i].job_id == job_id && self.tasks[i].task_id == task_id {
                proof {
                    lemma_task_index_at(self@.tasks, job_id, task_id, i as int);
                }
                return Some(i);
            }
            i += 1;
        }
        proof {
            lemma_task_index_none(self@.tasks, job_id, task_id);
        }
        None
    }

    fn has_job(&self, job_id: u128) -> (found: bool)
        ensures
            found == job_index(self@.tasks, job_id).is_some(),
            !found ==> forall|j: int|
                0 <= j < self@.tasks.len() ==> !in_job(#[trigger] self@.tasks[j], job_id),
    {
        let mut i: usize = 0;
        while i < self.tasks.len()
            invariant
                i <= self.tasks@.len(),
                forall|j: int| 0 <= j < i ==> !in_job(#[trigger] self@.tasks[j], job_id),
            decreases self.tasks@.len() - i,
        {
            if self.tasks[i].job_id == job_id {
                proof {
                    lemma_job_index_at(self@.tasks, job_id, i as int);
                }
                return true;
            }
            i += 1;
        }
        proof {
            lemma_job_index_none(self@.tasks, job_id);
        }
        false
    }

    fn prerequisites_done(&self, job_id: u128, ids: &Vec<u64>) -> (done: bool)
        requires
            self.wf(),
        ensures
            done == all_done(self@.tasks, job_id, ids@),
    {
        let mut k: usize = 0;
        while k < ids.len()
            invariant
                self.wf(),
                k <= ids@.len(),
                forall|j: int| 0 <= j < k ==> is_done(self@.tasks, job_id, #[trigger] ids@[j]),
            decreases ids@.len() - k,
        {
            let id = ids[k];
            let at = self.position(job_id, id);
            let found = match at {
                Some(d) => self.tasks[d].state.status == TaskStatus::Done,
                None => false,
            };
            if !found {
                return false;
            }
            k += 1;
        }
        true
    }

    /// Adds a task to a job. The task is refused where its stream does not
    /// exist, where the job has a task with this id, and where a task it
    /// depends on is not done; the queue is then left as it is.
    pub fn create_task(
        &mut self,
        job_id: u128,
        task_id: u64,
        stream_id: usize,
        task_def: TaskType,
        prerequisites: Vec<u64>,
        max_retries: i32,
        timeout_secs: i32,
    ) -> (created: Result<(), QueueError>)
        requires
            old(self).wf(),
        ensures
            final(self).wf(),
            final(self)@.streams == old(self)@.streams,
            match create_task_refusal(old(self)@, job_id, task_id, stream_id, prerequisites@) {
                Some(e) => created == Err::<(), QueueError>(e) && final(self)@ == old(self)@,
                None => created.is_ok() && final(self)@.tasks == old(self)@.tasks.push(
                    fresh_record(
                        job_id,
                        task_id,
                        stream_id,
                        task_def@,
                        prerequisites@,
                        max_retries,
                        timeout_secs,
                    ),
                ),
            },
    {
        if stream_id >= self.streams.streams.len() {
            return Err(QueueError::UnknownStream);
        }
        if self.position(job_id, task_id).is_some() {
            return Err(QueueError::DuplicateTask);
        }
        if !self.prerequisites_done(job_id, &prerequisites) {
            return Err(QueueError::PrerequisiteNotDone);
        }
        let ghost before = self@;
        let ghost record = fresh_record(
            job_id,
            task_id,
            stream_id,
            task_def@,
            prerequisites@,
            max_retries,
            timeout_secs,
        );
        self.tasks.push(
            TaskRecord {
                job_id,
                task_id,
                stream_id,
                task_def,
                prerequisites,
                state: TaskState::new(max_retries, timeout_secs),
                output: None,
                error: None,
            },
        );
        proof {
            assert(self@.tasks =~= before.tasks.push(record));
            lemma_push_keeps_wf(before, record);
        }
        Ok(())
    }

    /// Creates a job with its first task, which depends on nothing. The job
    /// is refused where its stream does not exist and where the queue holds
    /// a task of the job already; the queue is then left as it is.
    pub fn create_job(
        &mut self,
        job_id: u128,
        stream_id: usize,
        task_def: TaskType,
        max_retries: i32,
        timeout_secs: i32,
    ) -> (created: Result<(), QueueError>)
        requires
            old(self).wf(),
        ensures
            final(self).wf(),
            final(self)@.streams == old(self)@.streams,
            match create_job_refusal(old(self)@, job_id, stream_id) {
                Some(e) => created == Err::<(), QueueError>(e) && final(self)@ == old(self)@,
                None => created.is_ok() && final(self)@.tasks == old(self)@.tasks.push(
                    fresh_record(
                        job_id,
                        INIT_TASK,
                        stream_id,
                        task_def@,
                        Seq::empty(),
                        max_retries,
                        timeout_secs,
                    ),
                ),
            },
    {
        if stream_id >= self.streams.streams.len() {
            return Err(QueueError::UnknownStream);
        }
        if self.has_job(job_id) {
            return Err(QueueError::JobExists);
        }
        let ghost before = self@;
        let ghost record = fresh_record(
            job_id,
            INIT_TASK,
            stream_id,
            task_def@,
            Seq::empty(),
            max_retries,
            timeout_secs,
        );
        let prerequisites: Vec<u64> = Vec::new();
        self.tasks.push(
            TaskRecord {
                job_id,
                task_id: INIT_TASK,
                stream_id,
                task_def,
                prerequisites,
                state: TaskState::new(max_retries, timeout_secs),
                output: None,
                error: None,
            },
        );
        proof {
            assert(self@.tasks =~= before.tasks.push(record));
            lemma_task_index_none(before.tasks, job_id, INIT_TASK);
            lemma_push_keeps_wf(before, record);
        }
        Ok(())
    }

    /// Claims the oldest pending task on a stream for `work_type` and hands
    /// it out; `None` where there is no such task.
    pub fn request_work(&mut self, work_type: WorkType, now: u64) -> (task: Option<ReadyTask>)
        requires
            old(self).wf(),
        ensures
            final(self).wf(),
            final(self)@.streams == old(self)@.streams,
            match next_ready(old(self)@, work_type) {
                Some(i) => {
                    let r = old(self)@.tasks[i];
                    &&& final(self)@.tasks == old(self)@.tasks.update(
                        i,
                        with_state(r, r.state.step(TaskEvent::Claim { now })),
                    )
                    &&& task.is_some()
                    &&& task->Some_0.job_id == r.job_id
                    &&& task->Some_0.task_id == r.task_id
                    &&& task->Some_0.task_def@ == r.task_def
                    &&& task->Some_0.attempt == r.state.retries
                    &&& task->Some_0.max_retries == r.state.max_retries
                },
                None => task.is_none() && final(self)@ == old(self)@,
            },
    {
        let ghost before = self@;
        let mut i: usize = 0;
        while i < self.tasks.len()
            invariant
                i <= self.tasks@.len(),
                self@ == before,
                before == old(self)@,
                queue_wf(before),
                forall|j: int|
                    0 <= j < i ==> !claimable(#[trigger] before.tasks[j], before.streams, work_type),
            decreases self.tasks@.len() - i,
        {
            assert(before.tasks[i as int].stream_id < before.streams.len());
            let stream_id = self.tasks[i].stream_id;
            if self.tasks[i].state.status == TaskStatus::Pending
                && self.streams.streams[stream_id].work_type == work_type {
                proof {
                    lemma_next_ready_at(before, work_type, i as int);
                }
                let _ = self.tasks[i].state.apply(TaskEvent::Claim { now });
                let ready = ReadyTask {
                    job_id: self.tasks[i].job_id,
                    task_id: self.tasks[i].task_id,
                    task_def: self.tasks[i].task_def.duplicate(),
                    attempt: self.tasks[i].state.retries,
                    max_retries: self.tasks[i].state.max_retries,
                };
                proof {
                    lemma_progress_keeps_wf(before, self@);
                }
                return Some(ready);
            }
            i += 1;
        }
        proof {
            lemma_next_ready_none(before, work_type);
        }
        None
    }

    fn report(
        &mut self,
        job_id: u128,
        task_id: u64,
        event: TaskEvent,
        output: Option<TaskOutput>,
        error: Option<String>,
    ) -> (applied: bool)
        requires
            old(self).wf(),
        ensures
            final(self).wf(),
            final(self)@.streams == old(self)@.streams,
            final(self)@.tasks == after_report(
                old(self)@.tasks,
                job_id,
                task_id,
                event,
                output,
                match error {
                    Some(e) => Some(e@),
                    None => None,
                },
            ),
            applied == report_applies(old(self)@.tasks, job_id, task_id, event),
    {
        let ghost before = self@;
        match self.position(job_id, task_id) {
            None => false,
            Some(i) => {
                let applied = self.tasks[i].state.apply(event);
                if applied {
                    if output.is_some() {
                        self.tasks[i].output = output;
                    }
                    if error.is_some() {
                        self.tasks[i].error = error;
                    }
                }
                proof {
                    lemma_progress_keeps_wf(before, self@);
                }
                applied
            },
        }
    }

    /// Records that the worker of `attempt` finished the task with `output`.
    /// The report counts only while that attempt holds the task: a report
    /// that comes late, or twice, changes nothing and is answered `false`.
    pub fn update_task_done(&mut self, job_id: u128, task_id: u64, attempt: i32, output: TaskOutput)
        -> (applied: bool)
        requires
            old(self).wf(),
        ensures
            final(self).wf(),
            final(self)@.streams == old(self)@.streams,
            final(self)@.tasks == after_report(
                old(self)@.tasks,
                job_id,
                task_id,
                TaskEvent::Done { attempt },
                Some(output),
                None,
            ),
            applied == report_applies(
                old(self)@.tasks,
                job_id,
                task_id,
                TaskEvent::Done { attempt },
            ),
    {
        self.report(job_id, task_id, TaskEvent::Done { attempt }, Some(output), None)
    }

    /// Records that the attempt failed and asks for another: the task is
    /// pending again with one more retry counted, or failed where no retry
    /// remains.
    pub fn update_task_retry(&mut self, job_id: u128, task_id: u64, attempt: i32) -> (applied: bool)
        requires
            old(self).wf(),
        ensures
            final(self).wf(),
            final(self)@.streams == old(self)@.streams,
            final(self)@.tasks == after_report(
                old(self)@.tasks,
                job_id,
                task_id,
                TaskEvent::Retry { attempt },
                None,
                None,
            ),
            applied == report_applies(
                old(self)@.tasks,
                job_id,
                task_id,
                TaskEvent::Retry { attempt },
            ),
    {
        self.report(job_id, task_id, TaskEvent::Retry { attempt }, None, None)
    }

    /// Records that the attempt failed for good, with the reason.
    pub fn update_task_failed(&mut self, job_id: u128, task_id: u64, attempt: i32, error: &str) -> (applied:
        bool)
        requires
            old(self).wf(),
        ensures
            final(self).wf(),
            final(self)@.streams == old(self)@.streams,
            final(self)@.tasks == after_report(
                old(self)@.tasks,
                job_id,
                task_id,
                TaskEvent::Fail { attempt },
                None,
                Some(error@),
            ),
            applied == report_applies(
                old(self)@.tasks,
                job_id,
                task_id,
                TaskEvent::Fail { attempt },
            ),
    {
        self.report(
            job_id,
            task_id,
            TaskEvent::Fail { attempt },
            None,
            Some(String::from_str(error)),
        )
    }

    /// Scans for tasks that have been running longer than their timeout and
    /// takes their attempt away: at most `limit` tasks, oldest first. Says
    /// how many tasks were reclaimed.
    pub fn requeue_tasks(&mut self, now: u64, limit: usize) -> (count: usize)
        requires
            old(self).wf(),
        ensures
            final(self).wf(),
            final(self)@.streams == old(self)@.streams,
            final(self)@.tasks == after_scan(old(self)@.tasks, now, limit as nat),
            count == scan_count(old(self)@.tasks, now, limit as nat),
    {
        let ghost before = self@;
        let mut count: usize = 0;
        let mut i: usize = 0;
        while i < self.tasks.len()
            invariant
                i <= self.tasks@.len(),
                before == old(self)@,
                queue_wf(before),
                self@.streams == before.streams,
                self@.tasks.len() == before.tasks.len(),
                count <= limit,
                count <= i,
                count as nat == if overdue_before(before.tasks, now, i as int) < limit {
                    overdue_before(before.tasks, now, i as int)
                } else {
                    limit as nat
                },
                forall|j: int|
                    0 <= j < i ==> #[trigger] self@.tasks[j] == after_scan(
                        before.tasks,
                        now,
                        limit as nat,
                    )[j],
                forall|j: int| i <= j < before.tasks.len() ==> #[trigger] self@.tasks[j] == before.tasks[j],
            decreases self.tasks@.len() - i,
        {
            let ghost mid = self@;
            proof {
                assert(mid.tasks[i as int].state == self.tasks@[i as int].state);
            }
            if self.tasks[i].state.is_overdue(now) && count < limit {
                let _ = self.tasks[i].state.apply(TaskEvent::Scan { now });
                count += 1;
            }
            proof {
                assert forall|j: int| 0 <= j < i + 1 implies #[trigger] self@.tasks[j] == after_scan(
                    before.tasks,
                    now,
                    limit as nat,
                )[j] by {
                    if j < i {
                        assert(self@.tasks[j] == mid.tasks[j]);
                    }
                }
                assert forall|j: int| i + 1 <= j < before.tasks.len() implies #[trigger] self@.tasks[j]
                    == before.tasks[j] by {
                    assert(self@.tasks[j] == mid.tasks[j]);
                }
            }
            i += 1;
        }
        proof {
            lemma_progress_keeps_wf(before, self@);
        }
        count
    }

    /// Where a job stands, if the queue holds a task of it.
    pub fn job_status(&self, job_id: u128) -> (status: Option<JobStatus>)
        ensures
            status == job_status(self@.tasks, job_id),
    {
        let (wraps, executes_only) = match self.position(job_id, INIT_TASK) {
            Some(i) => match &self.tasks[i].task_def {
                TaskType::Executor(r) => (
                    match r.compress {
                        CompressType::Groth16 => true,
                        CompressType::Plain => false,
                    },
                    r.execute_only,
                ),
                _ => (false, false),
            },
            None => (false, false),
        };
        let mut any = false;
        let mut failed = false;
        let mut open = false;
        let mut ended = false;
        let mut i: usize = 0;
        while i < self.tasks.len()
            invariant
                i <= self.tasks@.len(),
                wraps == job_wraps(self@.tasks, job_id),
                executes_only == job_executes_only(self@.tasks, job_id),
                any == exists|j: int| 0 <= j < i && in_job(#[trigger] self@.tasks[j], job_id),
                failed == exists|j: int| 0 <= j < i && is_failed_in(#[trigger] self@.tasks[j], job_id),
                open == exists|j: int| 0 <= j < i && is_open_in(#[trigger] self@.tasks[j], job_id),
                ended == exists|j: int|
                    0 <= j < i && is_end_of(#[trigger] self@.tasks[j], job_id, wraps, executes_only),
            decreases self.tasks@.len() - i,
        {
            let ghost r = self@.tasks[i as int];
            if self.tasks[i].job_id == job_id {
                any = true;
                let status = self.tasks[i].state.status;
                if status == TaskStatus::Failed {
                    failed = true;
                }
                if status != TaskStatus::Done {
                    open = true;
                } else {
                    let last = match self.tasks[i].task_def.stage() {
                        Stage::Snark => true,
                        Stage::Finalize => !wraps,
                        Stage::Executor => executes_only,
                        _ => false,
                    };
                    if last {
                        ended = true;
                    }
                }
            }
            i += 1;
        }
        if !any {
            None
        } else if failed {
            Some(JobStatus::Failed)
        } else if !open && ended {
            Some(JobStatus::Done)
        } else {
            Some(JobStatus::Running)
        }
    }

    /// The scheduling state of a task, if the queue holds the task.
    pub fn state(&self, job_id: u128, task_id: u64) -> (state: Option<TaskState>)
        ensures
            state == match task_index(self@.tasks, job_id, task_id) {
                Some(i) => Some(self@.tasks[i].state),
                None => None,
            },
    {
        match self.position(job_id, task_id) {
            Some(i) => Some(self.tasks[i].state),
            None => None,
        }
    }

    /// The status of a task, if the queue holds the task.
    pub fn status(&self, job_id: u128, task_id: u64) -> (status: Option<TaskStatus>)
        ensures
            status == match task_index(self@.tasks, job_id, task_id) {
                Some(i) => Some(self@.tasks[i].state.status),
                None => None,
            },
    {
        match self.position(job_id, task_id) {
            Some(i) => Some(self.tasks[i].state.status),
            None => None,
        }
    }

    /// What a task left behind, if the queue holds the task and it is done.
    pub fn output(&self, job_id: u128, task_id: u64) -> (output: Option<TaskOutput>)
        ensures
            output == match task_index(self@.tasks, job_id, task_id) {
                Some(i) => self@.tasks[i].output,
                None => None,
            },
    {
        match self.position(job_id, task_id) {
            Some(i) => self.tasks[i].output,
            None => None,
        }
    }

    /// The tasks a task depends on, if the queue holds the task.
    pub fn prerequisites(&self, job_id: u128, task_id: u64) -> (ids: Option<Vec<u64>>)
        ensures
            match task_index(self@.tasks, job_id, task_id) {
                Some(i) => ids.is_some() && ids->Some_0@ == self@.tasks[i].prerequisites,
                None => ids.is_none(),
            },
    {
        match self.position(job_id, task_id) {
            Some(i) => Some(self.tasks[i].prerequisites.clone()),
            None => None,
        }
    }

    /// The definition of a task, if the queue holds the task.
    pub fn task_def(&self, job_id: u128, task_id: u64) -> (def: Option<TaskType>)
        ensures
            match task_index(self@.tasks, job_id, task_id) {
                Some(i) => def.is_some() && def->Some_0@ == self@.tasks[i].task_def,
                None => def.is_none(),
            },
    {
        match self.position(job_id, task_id) {
            Some(i) => Some(self.tasks[i].task_def.duplicate()),
            None => None,
        }
    }

    /// The error a task failed with, if the queue holds the task and an
    /// error was reported for it.
    pub fn error(&self, job_id: u128, task_id: u64) -> (error: Option<String>)
        ensures
            match task_index(self@.tasks, job_id, task_id) {
                Some(i) => match self@.tasks[i].error {
                    Some(e) => error.is_some() && error->Some_0@ == e,
                    None => error.is_none(),
                },
                None => error.is_none(),
            },
    {
        match self.position(job_id, task_id) {
            Some(i) => match &self.tasks[i].error {
                Some(e) => Some(e.clone()),
                None => None,
            },
            None => None,
        }
    }
}

/// The invariant of the queue survives the arrival of a task that is new,
/// on an existing stream, and has all its prerequisites done.
pub proof fn lemma_push_keeps_wf(q: TaskQueueView, record: TaskRecordView)
    requires
        queue_wf(q),
        record.stream_id < q.streams.len(),
        task_index(q.tasks, record.job_id, record.task_id).is_none(),
        all_done(q.tasks, record.job_id, record.prerequisites),
    ensures
        queue_wf(TaskQueueView { streams: q.streams, tasks: q.tasks.push(record) }),
{
    let after = q.tasks.push(record);
    let n = q.tasks.len() as int;
    lemma_task_index(q.tasks, record.job_id, record.task_id);
    assert forall|i: int, k: int|
        0 <= i < after.len() && 0 <= k < after[i].prerequisites.len()
            implies #[trigger] prerequisite_done(after, i, k) by {
        if i < n {
            assert(prerequisite_done(q.tasks, i, k));
            let d = choose|d: int|
                0 <= d < q.tasks.len() && is_done_task(
                    #[trigger] q.tasks[d],
                    q.tasks[i].job_id,
                    q.tasks[i].prerequisites[k],
                );
            assert(is_done_task(after[d], after[i].job_id, after[i].prerequisites[k]));
        } else {
            let d = choose|d: int|
                0 <= d < q.tasks.len() && is_done_task(
                    #[trigger] q.tasks[d],
                    record.job_id,
                    record.prerequisites[k],
                );
            assert(is_done_task(after[d], after[i].job_id, after[i].prerequisites[k]));
        }
    }
}

} // verus!
