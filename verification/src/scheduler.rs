//! Folding the result of a task back into the queue: the task is marked
//! done and the tasks that follow it are created.

use vstd::prelude::*;
use crate::agent::{Args, RetryPolicy};
use crate::dispatch::{plan_successors, planned_view, successors, JobFacts, PlannedTaskView};
use crate::lifecycle::{TaskEvent, TaskStatus};
use crate::planner::partner_of;
use crate::queue::{
    after_report, create_task_refusal, fresh_record, lemma_push_keeps_wf, lemma_task_index,
    queue_wf, report_applies, task_index, ReadyTask, TaskOutput, TaskQueue, TaskQueueView,
    TaskRecordView, INIT_TASK,
};
use crate::stream::{stream_id_given, streams_after_request};
use crate::work::{CompressType, ExecutorReqView, TaskType, TaskTypeView};

verus! {

/// The request the job was started with, where the job was started by the
/// executor.
pub open spec fn init_request(tasks: Seq<TaskRecordView>, job_id: u128) -> Option<ExecutorReqView> {
    match task_index(tasks, job_id, INIT_TASK) {
        Some(i) => match tasks[i].task_def {
            TaskTypeView::Executor(r) => Some(r),
            _ => None,
        },
        None => None,
    }
}

/// The number of segments in an output of the executor.
pub open spec fn segments_in(output: Option<TaskOutput>) -> u64 {
    match output {
        Some(TaskOutput::Executor(r)) => r.segments,
        _ => 0,
    }
}

/// The number of segments of the job, as far as it is known: what the
/// executor reports now, or what it has left in the queue.
pub open spec fn known_segments(
    tasks: Seq<TaskRecordView>,
    job_id: u128,
    done: TaskTypeView,
    output: TaskOutput,
) -> u64 {
    if done is Executor {
        segments_in(Some(output))
    } else {
        match task_index(tasks, job_id, INIT_TASK) {
            Some(i) => segments_in(tasks[i].output),
            None => 0,
        }
    }
}

/// The receipt that a finished task produced, where it produced one that is
/// merged further.
pub open spec fn done_receipt(done: TaskTypeView) -> Option<u64> {
    match done {
        TaskTypeView::Prove(r) => Some(r.index),
        TaskTypeView::Join(r) => Some(r.idx),
        _ => None,
    }
}

/// The status of a task, if the queue holds it.
pub open spec fn status_of(tasks: Seq<TaskRecordView>, job_id: u128, task_id: u64) -> Option<
    TaskStatus,
> {
    match task_index(tasks, job_id, task_id) {
        Some(i) => Some(tasks[i].state.status),
        None => None,
    }
}

/// Whether the task that produces the partner of the finished receipt is done.
pub open spec fn partner_ready(tasks: Seq<TaskRecordView>, job_id: u128, done: TaskTypeView) -> bool {
    match done_receipt(done) {
        Some(j) => j < u64::MAX - 1 && status_of(
            tasks,
            job_id,
            (partner_of(j as nat) + 1) as u64,
        ) == Some(TaskStatus::Done),
        None => false,
    }
}

/// What is known of the job once the task is marked done.
pub open spec fn facts_of(
    tasks: Seq<TaskRecordView>,
    job_id: u128,
    done: TaskTypeView,
    output: TaskOutput,
    request: ExecutorReqView,
) -> JobFacts {
    JobFacts {
        segments: known_segments(tasks, job_id, done, output),
        partner_done: partner_ready(tasks, job_id, done),
        wrap: request.compress == CompressType::Groth16,
        execute_only: request.execute_only,
    }
}

/// The queue after a task is offered to it: with the task at the end where
/// the queue takes it, unchanged where the queue refuses it.
pub open spec fn accept(q: TaskQueueView, record: TaskRecordView) -> TaskQueueView {
    if create_task_refusal(
        q,
        record.job_id,
        record.task_id,
        record.stream_id,
        record.prerequisites,
    ).is_none() {
        TaskQueueView { streams: q.streams, tasks: q.tasks.push(record) }
    } else {
        q
    }
}

/// The queue after the tasks are offered to it one after the other.
pub open spec fn enqueue(q: TaskQueueView, records: Seq<TaskRecordView>) -> TaskQueueView
    decreases records.len(),
{
    if records.len() == 0 {
        q
    } else {
        accept(enqueue(q, records.drop_last()), records.last())
    }
}

/// The records of planned tasks of a job, on a stream and under a policy.
pub open spec fn records_for(
    planned: Seq<PlannedTaskView>,
    job_id: u128,
    stream_id: usize,
    policy: RetryPolicy,
) -> Seq<TaskRecordView> {
    Seq::new(
        planned.len(),
        |i: int|
            fresh_record(
                job_id,
                planned[i].task_id,
                stream_id,
                planned[i].task_def,
                planned[i].prerequisites,
                policy.max_retries,
                policy.timeout_secs,
            ),
    )
}

/// The queue after the worker of `attempt` reported the task done.
///
/// A report that does not count leaves the queue as it is. One that counts
/// marks the task done and, in a job started by the executor, offers the
/// tasks that follow to the queue, on the stream of the job's owner for
/// their kind of work and under the policy of their stage.
pub open spec fn after_completion(
    q: TaskQueueView,
    job_id: u128,
    task_id: u64,
    attempt: i32,
    done: TaskTypeView,
    output: TaskOutput,
    args: Args,
) -> TaskQueueView {
    let event = TaskEvent::Done { attempt };
    let reported = TaskQueueView {
        streams: q.streams,
        tasks: after_report(q.tasks, job_id, task_id, event, Some(output), None),
    };
    if !report_applies(q.tasks, job_id, task_id, event) {
        q
    } else {
        match init_request(reported.tasks, job_id) {
            None => reported,
            Some(request) => {
                let facts = facts_of(reported.tasks, job_id, done, output, request);
                let planned = successors(done, task_id, job_id, facts);
                if planned.len() == 0 {
                    reported
                } else {
                    let stage = planned[0].task_def.stage();
                    let work_type = stage.spec_work_type();
                    enqueue(
                        TaskQueueView {
                            streams: streams_after_request(q.streams, request.user_id, work_type),
                            tasks: reported.tasks,
                        },
                        records_for(
                            planned,
                            job_id,
                            stream_id_given(q.streams, request.user_id, work_type) as usize,
                            args.spec_policy(stage),
                        ),
                    )
                }
            },
        }
    }
}

/// Offering tasks to the queue keeps its invariant: whatever is offered, a
/// task enters only with all its prerequisites done.
pub proof fn lemma_enqueue_keeps_wf(q: TaskQueueView, records: Seq<TaskRecordView>)
    requires
        queue_wf(q),
    ensures
        queue_wf(enqueue(q, records)),
        enqueue(q, records).streams == q.streams,
    decreases records.len(),
{
    if records.len() > 0 {
        lemma_enqueue_keeps_wf(q, records.drop_last());
        let before = enqueue(q, records.drop_last());
        let r = records.last();
        if create_task_refusal(before, r.job_id, r.task_id, r.stream_id, r.prerequisites).is_none() {
            lemma_push_keeps_wf(before, r);
        }
    }
}

/// Marks a task done for the worker that held it and creates the tasks that
/// follow. Says whether the report counted.
pub fn complete_task(queue: &mut TaskQueue, task: &ReadyTask, output: TaskOutput, args: &Args) -> (applied:
    bool)
    requires
        old(queue).wf(),
    ensures
        final(queue).wf(),
        applied == report_applies(
            old(queue)@.tasks,
            task.job_id,
            task.task_id,
            TaskEvent::Done { attempt: task.attempt },
        ),
        final(queue)@ == after_completion(
            old(queue)@,
            task.job_id,
            task.task_id,
            task.attempt,
            task.task_def@,
            output,
            *args,
        ),
{
    let ghost before = queue@;
    let job_id = task.job_id;
    if !queue.update_task_done(job_id, task.task_id, task.attempt, output) {
        proof {
            lemma_task_index(before.tasks, job_id, task.task_id);
            assert(queue@.tasks =~= before.tasks);
        }
        return false;
    }
    let request = match queue.task_def(job_id, INIT_TASK) {
        Some(TaskType::Executor(r)) => r,
        _ => {
            return true;
        },
    };
    let segments = match &task.task_def {
        TaskType::Executor(_) => match output {
            TaskOutput::Executor(r) => r.segments,
            TaskOutput::Opaque => 0,
        },
        _ => match queue.output(job_id, INIT_TASK) {
            Some(TaskOutput::Executor(r)) => r.segments,
            _ => 0,
        },
    };
    let receipt = match &task.task_def {
        TaskType::Prove(r) => Some(r.index),
        TaskType::Join(r) => Some(r.idx),
        _ => None,
    };
    let partner_done = match receipt {
        Some(j) => {
            if j < u64::MAX - 1 {
                let partner = if j % 2 == 0 {
                    j + 1
                } else {
                    j - 1
                };
                match queue.status(job_id, partner + 1) {
                    Some(TaskStatus::Done) => true,
                    _ => false,
                }
            } else {
                false
            }
        },
        None => false,
    };
    let facts = JobFacts {
        segments,
        partner_done,
        wrap: match request.compress {
            CompressType::Groth16 => true,
            CompressType::Plain => false,
        },
        execute_only: request.execute_only,
    };
    let planned = plan_successors(&task.task_def, task.task_id, job_id, facts);
    if planned.len() == 0 {
        return true;
    }
    let stage = planned[0].task_def.stage();
    let policy = args.policy(stage);
    let stream_id = queue.get_or_create_stream(request.user_id.as_str(), stage.work_type());
    let ghost start = queue@;
    let ghost records = records_for(planned_view(planned@), job_id, stream_id, policy);
    let mut i: usize = 0;
    while i < planned.len()
        invariant
            i <= planned@.len(),
            queue.wf(),
            records == records_for(planned_view(planned@), job_id, stream_id, policy),
            queue@ == enqueue(start, records.take(i as int)),
        decreases planned@.len() - i,
    {
        let _ = queue.create_task(
            job_id,
            planned[i].task_id,
            stream_id,
            planned[i].task_def.duplicate(),
            planned[i].prerequisites.clone(),
            policy.max_retries,
            policy.timeout_secs,
        );
        proof {
            let upto = records.take(i + 1);
            assert(upto.drop_last() =~= records.take(i as int));
        }
        i += 1;
    }
    assert(records.take(i as int) =~= records);
    true
}

} // verus!
