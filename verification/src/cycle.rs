//! The agent at work on a queue and a store: taking assignments in, folding
//! the outcome of a task back into the queue, and handing results out.

use vstd::prelude::*;
use vstd::string::StringExecFns;
use crate::agent::{truncate_error, truncated, Agent, Args};
use crate::artifact::{artifacts_view, put_all_new, Artifact, ArtifactStore};
use crate::lifecycle::TaskEvent;
use crate::queue::{
    after_report, create_job_refusal, fresh_record, report_applies, task_index, QueueError,
    ReadyTask, TaskOutput, TaskQueue, TaskQueueView, INIT_TASK,
};
use crate::remote::{
    assignment_plan, details_view, key_text, lookups_of, plan_assignment, plan_lookups,
    IngestFacts, IngestFactsView, IngestPlan, IngestPlanView, Rejection, TaskAssignment,
    TaskDetailsView,
};
use crate::ident::random_uuid;
use crate::report::{
    completes_job, make_result_key, optional_bytes, plan_upload, progress_update,
    received_progress, received_update, result_key, stage_progress, upload_of, ProgressUpdate,
    UploadError, UploadPlan,
};
use crate::scheduler::{after_completion, complete_task};
use crate::stream::{remote_streams_after, stream_id_given, StreamView, REMOTE_OWNER};
use crate::work::{ExecutorResp, Stage, WorkType};

verus! {

/// Why an assignment did not become a job.
#[derive(Clone, Copy, Debug, PartialEq, Eq, Structural)]
pub enum IntakeError {
    /// The assignment is not valid.
    Rejected(Rejection),
    /// The queue refused the job.
    Refused(QueueError),
    /// The acknowledgement of the assignment did not reach the remote
    /// service.
    Unacknowledged,
}

/// What came of the outcome of a task.
#[derive(Debug, PartialEq, Eq)]
pub struct WorkReport {
    /// Whether the queue took the report: it does not where the task is no
    /// longer held by the attempt that reports.
    pub applied: bool,
    /// The update to send over the remote task channel, if any.
    pub update: Option<ProgressUpdate>,
    /// Whether the result of the job is to be delivered after the update.
    pub deliver: bool,
}

/// Whether the store holds the object a lookup asks for; `false` where
/// nothing is asked.
pub open spec fn found(store: Map<Seq<char>, Seq<u8>>, key: Option<Seq<char>>) -> bool {
    match key {
        Some(k) => store.contains_key(k),
        None => false,
    }
}

/// What the store shows about an assignment, together with what the caller
/// computed for it. The store is asked under the keys of [`lookups_of`] and
/// under no other.
pub open spec fn observed_facts(
    store: Map<Seq<char>, Seq<u8>>,
    task_id: Seq<char>,
    details: Option<TaskDetailsView>,
    computed_image_id: Option<Seq<char>>,
    fresh_input_id: u128,
) -> IngestFactsView {
    let lookups = lookups_of(task_id, details, computed_image_id);
    IngestFactsView {
        computed_image_id,
        elf_stored: found(store, lookups.elf_key),
        input_stored: found(store, lookups.input_key),
        fresh_input_id,
        receipt_stored: found(store, lookups.receipt_key),
    }
}

/// The stream of the remote task channel on which a job for `work_type` is
/// queued: the one for wrapping for a wrapping job, the one for execution
/// for every other job.
pub open spec fn remote_stream_id(streams: Seq<StreamView>, work_type: WorkType)
    -> nat {
    if work_type == WorkType::Snark {
        stream_id_given(remote_streams_after(streams, 5), REMOTE_OWNER@, WorkType::Snark)
    } else {
        stream_id_given(remote_streams_after(streams, 1), REMOTE_OWNER@, WorkType::Exec)
    }
}

/// The text of a string that may be absent.
pub open spec fn optional_text(text: Option<String>) -> Option<Seq<char>> {
    match text {
        Some(t) => Some(t@),
        None => None,
    }
}

/// Whether a plan was carried out: the artifacts are stored, each unless
/// already present; a rejection leaves the queue as it is; a job is queued
/// on the stream of the remote channel for its kind of work, unless the
/// queue refuses it.
pub open spec fn taken_as_planned(
    plan: IngestPlanView,
    store_before: Map<Seq<char>, Seq<u8>>,
    queue_before: TaskQueueView,
    store_after: Map<Seq<char>, Seq<u8>>,
    queue_after: TaskQueueView,
    taken: Result<u128, IntakeError>,
) -> bool {
    &&& store_after == put_all_new(store_before, plan.writes)
    &&& match plan.outcome {
        Err(reason) => taken == Err::<u128, IntakeError>(IntakeError::Rejected(reason))
            && queue_after == queue_before,
        Ok(job) => {
            let streams = remote_streams_after(queue_before.streams, 6);
            let stream_id = remote_stream_id(queue_before.streams, job.work_type) as usize;
            &&& queue_after.streams == streams
            &&& match create_job_refusal(
                TaskQueueView { streams, tasks: queue_before.tasks },
                job.job_id,
                stream_id,
            ) {
                Some(e) => taken == Err::<u128, IntakeError>(IntakeError::Refused(e))
                    && queue_after.tasks == queue_before.tasks,
                None => taken == Ok::<u128, IntakeError>(job.job_id) && queue_after.tasks
                    == queue_before.tasks.push(
                    fresh_record(
                        job.job_id,
                        INIT_TASK,
                        stream_id,
                        job.task_def,
                        Seq::empty(),
                        job.max_retries,
                        job.timeout_secs,
                    ),
                ),
            }
        },
    }
}

/// Whether an assignment was taken in as its plan says, the plan being made
/// from what the store showed and from the given fresh identifier.
pub open spec fn assignment_taken(
    args: Args,
    task_id: Seq<char>,
    details: Option<TaskDetailsView>,
    computed_image_id: Option<Seq<char>>,
    fresh_input_id: u128,
    store_before: Map<Seq<char>, Seq<u8>>,
    queue_before: TaskQueueView,
    store_after: Map<Seq<char>, Seq<u8>>,
    queue_after: TaskQueueView,
    taken: Result<u128, IntakeError>,
) -> bool {
    taken_as_planned(
        assignment_plan(
            task_id,
            details,
            observed_facts(store_before, task_id, details, computed_image_id, fresh_input_id),
            args,
        ),
        store_before,
        queue_before,
        store_after,
        queue_after,
        taken,
    )
}

/// The result of the executor as it is reported over the remote channel.
pub open spec fn executed_by(stage: Stage, output: TaskOutput) -> Option<ExecutorResp> {
    match output {
        TaskOutput::Executor(r) => if stage == Stage::Executor {
            Some(r)
        } else {
            None
        },
        TaskOutput::Opaque => None,
    }
}

/// The report to the queue for a task whose handler failed: another attempt
/// is asked for where the task was granted retries, a permanent failure is
/// reported otherwise.
pub open spec fn failure_event(task: ReadyTask) -> TaskEvent {
    if task.max_retries > 0 {
        TaskEvent::Retry { attempt: task.attempt }
    } else {
        TaskEvent::Fail { attempt: task.attempt }
    }
}

/// The error stored with a task whose handler failed: none while the task
/// is tried again, the cut-down message once it is failed.
pub open spec fn failure_note(task: ReadyTask, error: Seq<char>) -> Option<Seq<char>> {
    if task.max_retries > 0 {
        None
    } else {
        Some(truncated(error))
    }
}

fn is_stored(store: &ArtifactStore, key: &Option<String>) -> (stored: bool)
    requires
        store.wf(),
    ensures
        stored == found(store@, key_text(*key)),
{
    match key {
        Some(k) => store.object_exists(k.as_str()),
        None => false,
    }
}

fn observe(
    store: &ArtifactStore,
    task: &TaskAssignment,
    computed_image_id: Option<String>,
    fresh_input_id: u128,
) -> (facts: IngestFacts)
    requires
        store.wf(),
    ensures
        facts@ == observed_facts(
            store@,
            task.task_id@,
            details_view(task.task_details),
            optional_text(computed_image_id),
            fresh_input_id,
        ),
{
    let lookups = plan_lookups(task, &computed_image_id);
    let elf_stored = is_stored(store, &lookups.elf_key);
    let input_stored = is_stored(store, &lookups.input_key);
    let receipt_stored = is_stored(store, &lookups.receipt_key);
    IngestFacts { computed_image_id, elf_stored, input_stored, fresh_input_id, receipt_stored }
}

fn store_all(store: &mut ArtifactStore, writes: &Vec<Artifact>)
    requires
        old(store).wf(),
    ensures
        final(store).wf(),
        final(store)@ == put_all_new(old(store)@, artifacts_view(writes@)),
{
    let ghost all = artifacts_view(writes@);
    let mut i: usize = 0;
    while i < writes.len()
        invariant
            i <= writes@.len(),
            store.wf(),
            all == artifacts_view(writes@),
            store@ == put_all_new(old(store)@, all.take(i as int)),
        decreases writes@.len() - i,
    {
        let _ = store.write_if_absent(writes[i].key.as_str(), writes[i].bytes.clone());
        proof {
            let upto = all.take(i + 1);
            assert(upto.drop_last() =~= all.take(i as int));
        }
        i += 1;
    }
    assert(all.take(i as int) =~= all);
}

impl Agent {
    /// Takes an assignment of the remote task channel in. `computed_image_id`
    /// is the image id of the attached program, where one is attached and
    /// its id could be computed; `fresh_input_id` is an unused identifier.
    ///
    /// The artifacts of the plan are stored, each unless already present.
    /// An assignment that is rejected leaves the queue as it is. An accepted
    /// one becomes a job with one task, queued on the stream of the remote
    /// channel for its kind of work.
    pub fn take_assignment(
        &self,
        store: &mut ArtifactStore,
        queue: &mut TaskQueue,
        task: &TaskAssignment,
        computed_image_id: Option<String>,
        fresh_input_id: u128,
    ) -> (taken: Result<u128, IntakeError>)
        requires
            old(store).wf(),
            old(queue).wf(),
        ensures
            final(store).wf(),
            final(queue).wf(),
            assignment_taken(
                self.args,
                task.task_id@,
                details_view(task.task_details),
                optional_text(computed_image_id),
                fresh_input_id,
                old(store)@,
                old(queue)@,
                final(store)@,
                final(queue)@,
                taken,
            ),
    {
        let facts = observe(store, task, computed_image_id, fresh_input_id);
        let plan = plan_assignment(task, &facts, &self.args);
        let IngestPlan { writes, outcome } = plan;
        store_all(store, &writes);
        match outcome {
            Err(reason) => Err(IntakeError::Rejected(reason)),
            Ok(job) => {
                let ids = queue.remote_streams();
                let stream_id = match job.work_type {
                    WorkType::Snark => ids.snark_stream,
                    _ => ids.exec_stream,
                };
                let job_id = job.job_id;
                match queue.create_job(
                    job_id,
                    stream_id,
                    job.task_def,
                    job.max_retries,
                    job.timeout_secs,
                ) {
                    Ok(()) => Ok(job_id),
                    Err(e) => Err(IntakeError::Refused(e)),
                }
            },
        }
    }

    /// The update that acknowledges an assignment. It is sent before the
    /// assignment is taken in, by an agent that reports over the remote task
    /// channel; another agent sends none.
    pub fn acknowledgement(&self, task: &TaskAssignment) -> (ack: Option<ProgressUpdate>)
        ensures
            match ack {
                Some(update) => self.has_remote && update@ == received_progress(task.task_id@),
                None => !self.has_remote,
            },
    {
        if self.has_remote {
            Some(received_update(task.task_id.as_str()))
        } else {
            None
        }
    }

    /// Takes an assignment of the remote task channel in, once its
    /// acknowledgement has been sent. `acknowledged` says whether the
    /// acknowledgement reached the remote service; an agent that owes none
    /// is not held up by it.
    ///
    /// An assignment whose acknowledgement failed is not taken in: store and
    /// queue stay as they are. Any other assignment is taken in with a
    /// freshly drawn identifier for an input that arrives without one. The
    /// identifier is random, so the outcome is stated for the identifier
    /// that was drawn, whichever it was.
    pub fn process_grpc_task(
        &self,
        store: &mut ArtifactStore,
        queue: &mut TaskQueue,
        task: &TaskAssignment,
        acknowledged: bool,
        computed_image_id: Option<String>,
    ) -> (taken: Result<u128, IntakeError>)
        requires
            old(store).wf(),
            old(queue).wf(),
        ensures
            final(store).wf(),
            final(queue).wf(),
            self.has_remote && !acknowledged ==> taken == Err::<u128, IntakeError>(
                IntakeError::Unacknowledged,
            ) && final(store)@ == old(store)@ && final(queue)@ == old(queue)@,
            !self.has_remote || acknowledged ==> exists|fresh_input_id: u128| #[trigger]
                assignment_taken(
                    self.args,
                    task.task_id@,
                    details_view(task.task_details),
                    optional_text(computed_image_id),
                    fresh_input_id,
                    old(store)@,
                    old(queue)@,
                    final(store)@,
                    final(queue)@,
                    taken,
                ),
    {
        if self.has_remote && !acknowledged {
            return Err(IntakeError::Unacknowledged);
        }
        let fresh_input_id = random_uuid();
        self.take_assignment(store, queue, task, computed_image_id, fresh_input_id)
    }

    /// Folds the outcome of a task back into the queue. `outcome` is what
    /// the handler of the stage returned: its output, or its error.
    ///
    /// After a success the task is marked done and the tasks that follow are
    /// created; where the agent reports over the remote task channel and the
    /// task is queued on a stream of that channel, the report carries the
    /// progress update. After a failure the task is given another attempt
    /// where it was granted retries, and is failed with the stored form of
    /// the error where it was not.
    pub fn process_work(
        &self,
        queue: &mut TaskQueue,
        task: &ReadyTask,
        outcome: Result<TaskOutput, String>,
    ) -> (report: WorkReport)
        requires
            old(queue).wf(),
        ensures
            final(queue).wf(),
            match outcome {
                Ok(output) => {
                    let stage = task.task_def@.stage();
                    let notify = report.applied && self.has_remote && match task_index(
                        old(queue)@.tasks,
                        task.job_id,
                        task.task_id,
                    ) {
                        Some(i) => old(queue)@.streams[old(queue)@.tasks[i].stream_id as int].owner
                            == REMOTE_OWNER@,
                        None => false,
                    };
                    &&& final(queue)@ == after_completion(
                        old(queue)@,
                        task.job_id,
                        task.task_id,
                        task.attempt,
                        task.task_def@,
                        output,
                        self.args,
                    )
                    &&& report.applied == report_applies(
                        old(queue)@.tasks,
                        task.job_id,
                        task.task_id,
                        TaskEvent::Done { attempt: task.attempt },
                    )
                    &&& notify ==> report.update.is_some() && report.update->Some_0@
                        == stage_progress(task.job_id, stage, executed_by(stage, output))
                    &&& !notify ==> report.update.is_none()
                    &&& report.deliver == (notify && completes_job(stage))
                },
                Err(error) => {
                    &&& final(queue)@.streams == old(queue)@.streams
                    &&& final(queue)@.tasks == after_report(
                        old(queue)@.tasks,
                        task.job_id,
                        task.task_id,
                        failure_event(*task),
                        None,
                        failure_note(*task, error@),
                    )
                    &&& report.applied == report_applies(
                        old(queue)@.tasks,
                        task.job_id,
                        task.task_id,
                        failure_event(*task),
                    )
                    &&& report.update.is_none()
                    &&& !report.deliver
                },
            },
    {
        match outcome {
            Ok(output) => {
                let from_remote = match queue.stream_owner(task.job_id, task.task_id) {
                    Some(owner) => owner == String::from_str(REMOTE_OWNER),
                    None => false,
                };
                let applied = complete_task(queue, task, output, &self.args);
                let stage = task.task_def.stage();
                if applied && self.has_remote && from_remote {
                    let executed = match output {
                        TaskOutput::Executor(r) => match stage {
                            Stage::Executor => Some(r),
                            _ => None,
                        },
                        TaskOutput::Opaque => None,
                    };
                    let update = progress_update(task.job_id, stage, executed);
                    let deliver = match stage {
                        Stage::Finalize | Stage::Snark => true,
                        _ => false,
                    };
                    WorkReport { applied, update: Some(update), deliver }
                } else {
                    WorkReport { applied, update: None, deliver: false }
                }
            },
            Err(error) => {
                let applied = if task.max_retries > 0 {
                    queue.update_task_retry(task.job_id, task.task_id, task.attempt)
                } else {
                    let stored = truncate_error(error.as_str());
                    queue.update_task_failed(
                        task.job_id,
                        task.task_id,
                        task.attempt,
                        stored.as_str(),
                    )
                };
                WorkReport { applied, update: None, deliver: false }
            },
        }
    }

    /// Prepares the result of a finished job for delivery. `journal` is the
    /// journal that the caller read out of the stored receipt, `None` where
    /// the stored bytes are not a receipt. The store is only read: the local
    /// copy stays until [`settle_upload`] is told that the delivery was
    /// acknowledged.
    pub fn upload_task_result(
        &self,
        store: &ArtifactStore,
        stage: Stage,
        job_id: u128,
        journal: Option<Vec<u8>>,
    ) -> (plan: Result<UploadPlan, UploadError>)
        requires
            store.wf(),
        ensures
            match upload_of(
                stage,
                job_id,
                stored_under(store@, result_key(stage, job_id)),
                optional_bytes(journal),
            ) {
                Ok(request) => plan.is_ok() && plan->Ok_0.request@ == request
                    && plan->Ok_0.delete_key@ == result_key(stage, job_id),
                Err(e) => plan == Err::<UploadPlan, UploadError>(e),
            },
    {
        let key = make_result_key(stage, job_id);
        let stored = store.read(key.as_str());
        plan_upload(stage, job_id, stored, journal)
    }
}

/// What the store holds under a key, if anything.
pub open spec fn stored_under(store: Map<Seq<char>, Seq<u8>>, key: Seq<char>) -> Option<Seq<u8>> {
    if store.contains_key(key) {
        Some(store[key])
    } else {
        None
    }
}

/// Settles a delivery once the remote service has answered. The local copy
/// under `key` is given up where the service acknowledged the delivery; it
/// stays where the delivery failed or was refused.
pub fn settle_upload(store: &mut ArtifactStore, key: &str, acknowledged: bool)
    requires
        old(store).wf(),
    ensures
        final(store).wf(),
        acknowledged ==> final(store)@ == old(store)@.remove(key@),
        !acknowledged ==> final(store)@ == old(store)@,
{
    if acknowledged {
        store.delete(key);
    }
}

} // verus!
