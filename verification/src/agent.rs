//! The agent: its settings and the decisions of its polling loops.

use vstd::prelude::*;
use vstd::string::{StrSliceExecFns, StringExecFns};
use crate::queue::ReadyTask;
use crate::remote::TaskAssignment;
use crate::stream::work_type_named;
use crate::work::{Stage, WorkType};

verus! {

/// How often a task is tried again and how long one attempt may run.
#[derive(Clone, Copy, Debug, PartialEq, Eq, Structural)]
pub struct RetryPolicy {
    pub max_retries: i32,
    pub timeout_secs: i32,
}

/// Settings of a workflow agent.
#[derive(Clone, Debug, PartialEq, Eq)]
pub struct Args {
    /// Name of the stream the agent takes its tasks from.
    pub task_stream: String,
    /// Seconds to wait after a poll that found no task.
    pub poll_time: u64,
    /// Location of the task database.
    pub database_url: String,
    /// Location of the redis cache.
    pub redis_url: String,
    /// Power of two of the segment size.
    pub segment_po2: u32,
    /// Connections held open to the task database.
    pub db_max_connections: u32,
    /// Seconds after which cached objects expire.
    pub redis_ttl: u64,
    /// Lower bound of the cycle limit handed to the executor.
    pub exec_cycle_limit: u64,
    /// Bucket of the artifact store.
    pub s3_bucket: String,
    /// Access key of the artifact store.
    pub s3_access_key: String,
    /// Secret key of the artifact store.
    pub s3_secret_key: String,
    /// Location of the artifact store.
    pub s3_url: String,
    /// Whether this agent also runs the scan for timed-out tasks.
    pub monitor_requeue: bool,
    pub exec_retries: i32,
    pub exec_timeout: i32,
    pub prove_retries: i32,
    pub prove_timeout: i32,
    pub join_retries: i32,
    pub join_timeout: i32,
    pub resolve_retries: i32,
    pub resolve_timeout: i32,
    pub finalize_retries: i32,
    pub finalize_timeout: i32,
    pub snark_timeout: i32,
    pub snark_retries: i32,
    /// Endpoint of the remote task channel, if one is configured.
    pub grpc_endpoint: Option<String>,
    /// Whether tasks are also taken from the remote task channel.
    pub enable_grpc: bool,
    /// Seconds to wait between requests on the remote task channel.
    pub grpc_poll_time: u64,
}

impl Args {
    /// The policy of a stage. Every stage has settings of its own; the
    /// coprocessor stages go by those of the stage they resemble, hashing by
    /// proving and merging by joining.
    pub open spec fn spec_policy(&self, stage: Stage) -> RetryPolicy {
        match stage {
            Stage::Executor => RetryPolicy {
                max_retries: self.exec_retries,
                timeout_secs: self.exec_timeout,
            },
            Stage::Prove => RetryPolicy {
                max_retries: self.prove_retries,
                timeout_secs: self.prove_timeout,
            },
            Stage::Join => RetryPolicy {
                max_retries: self.join_retries,
                timeout_secs: self.join_timeout,
            },
            Stage::Resolve => RetryPolicy {
                max_retries: self.resolve_retries,
                timeout_secs: self.resolve_timeout,
            },
            Stage::Finalize => RetryPolicy {
                max_retries: self.finalize_retries,
                timeout_secs: self.finalize_timeout,
            },
            Stage::Snark => RetryPolicy {
                max_retries: self.snark_retries,
                timeout_secs: self.snark_timeout,
            },
            Stage::Keccak => RetryPolicy {
                max_retries: self.prove_retries,
                timeout_secs: self.prove_timeout,
            },
            Stage::Union => RetryPolicy {
                max_retries: self.join_retries,
                timeout_secs: self.join_timeout,
            },
        }
    }

    /// The policy of a stage.
    pub fn policy(&self, stage: Stage) -> (policy: RetryPolicy)
        ensures
            policy == self.spec_policy(stage),
    {
        match stage {
            Stage::Executor => RetryPolicy {
                max_retries: self.exec_retries,
                timeout_secs: self.exec_timeout,
            },
            Stage::Prove | Stage::Keccak => RetryPolicy {
                max_retries: self.prove_retries,
                timeout_secs: self.prove_timeout,
            },
            Stage::Join | Stage::Union => RetryPolicy {
                max_retries: self.join_retries,
                timeout_secs: self.join_timeout,
            },
            Stage::Resolve => RetryPolicy {
                max_retries: self.resolve_retries,
                timeout_secs: self.resolve_timeout,
            },
            Stage::Finalize => RetryPolicy {
                max_retries: self.finalize_retries,
                timeout_secs: self.finalize_timeout,
            },
            Stage::Snark => RetryPolicy {
                max_retries: self.snark_retries,
                timeout_secs: self.snark_timeout,
            },
        }
    }
}

/// The longest error message that is stored with a failed task, in
/// characters.
pub const MAX_ERROR_CHARS: usize = 1024;

/// How many timed-out tasks one scan reclaims at most.
pub const REQUEUE_BATCH: usize = 100;

/// Seconds between two scans for timed-out tasks.
pub const REQUEUE_INTERVAL_SECS: u64 = 5;

/// The number of whole mebibytes in `bytes`.
pub open spec fn mebibytes(bytes: u64) -> u64 {
    (bytes / 1024 / 1024) as u64
}

/// An error message cut down to what is stored: its first
/// [`MAX_ERROR_CHARS`] characters.
pub open spec fn truncated(error: Seq<char>) -> Seq<char> {
    if error.len() <= MAX_ERROR_CHARS {
        error
    } else {
        error.subrange(0, MAX_ERROR_CHARS as int)
    }
}

/// Cuts an error message down to what is stored.
pub fn truncate_error(error: &str) -> (stored: String)
    ensures
        stored@ == truncated(error@),
{
    if error.unicode_len() <= MAX_ERROR_CHARS {
        String::from_str(error)
    } else {
        String::from_str(error.substring_char(0, MAX_ERROR_CHARS))
    }
}

/// Whether an agent on the stream with the given name needs the prover:
/// the streams for proving, joining and the coprocessor do.
pub open spec fn stream_needs_prover(task_stream: Seq<char>) -> bool {
    match work_type_named(task_stream) {
        Some(WorkType::Prove) => true,
        Some(WorkType::Join) => true,
        Some(WorkType::Coproc) => true,
        _ => false,
    }
}

/// The decisions of an agent: its settings and what it found at startup.
#[derive(Clone, Debug, PartialEq, Eq)]
pub struct Agent {
    /// All settings.
    pub args: Args,
    /// Power of two of the segment size.
    pub segment_po2: u32,
    /// Memory of the first accelerator in mebibytes, 0 where none was found.
    pub gpu_memory: u64,
    /// Whether the agent holds a prover.
    pub needs_prover: bool,
    /// Whether the agent reports over the remote task channel.
    pub has_remote: bool,
}

/// The retries and timeouts a stage is given where nothing else is
/// configured. Executing and finalizing are not retried; proving, joining
/// and resolving fail now and then for reasons that pass, and are tried up
/// to three more times.
pub open spec fn default_policy(stage: Stage) -> RetryPolicy {
    match stage {
        Stage::Executor => RetryPolicy { max_retries: 0, timeout_secs: 14400 },
        Stage::Prove => RetryPolicy { max_retries: 3, timeout_secs: 30 },
        Stage::Join => RetryPolicy { max_retries: 3, timeout_secs: 10 },
        Stage::Resolve => RetryPolicy { max_retries: 3, timeout_secs: 10 },
        Stage::Finalize => RetryPolicy { max_retries: 0, timeout_secs: 10 },
        Stage::Snark => RetryPolicy { max_retries: 0, timeout_secs: 240 },
        Stage::Keccak => RetryPolicy { max_retries: 3, timeout_secs: 30 },
        Stage::Union => RetryPolicy { max_retries: 3, timeout_secs: 10 },
    }
}

impl Args {
    /// The settings of an agent on the given stream and services, with
    /// every other setting at its default.
    pub fn with_defaults(
        task_stream: String,
        database_url: String,
        redis_url: String,
        s3_bucket: String,
        s3_access_key: String,
        s3_secret_key: String,
        s3_url: String,
    ) -> (args: Args)
        ensures
            args.task_stream == task_stream,
            args.database_url == database_url,
            args.redis_url == redis_url,
            args.s3_bucket == s3_bucket,
            args.s3_access_key == s3_access_key,
            args.s3_secret_key == s3_secret_key,
            args.s3_url == s3_url,
            args.poll_time == 1,
            args.segment_po2 == 20,
            args.db_max_connections == 1,
            args.redis_ttl == 28800,
            args.exec_cycle_limit == 100000,
            !args.monitor_requeue,
            forall|stage: Stage| #[trigger] args.spec_policy(stage) == default_policy(stage),
            args.grpc_endpoint.is_some() && args.grpc_endpoint->Some_0@ == "http://localhost:50051"@,
            args.enable_grpc,
            args.grpc_poll_time == 1,
    {
        Args {
            task_stream,
            poll_time: 1,
            database_url,
            redis_url,
            segment_po2: 20,
            db_max_connections: 1,
            redis_ttl: 28800,
            exec_cycle_limit: 100000,
            s3_bucket,
            s3_access_key,
            s3_secret_key,
            s3_url,
            monitor_requeue: false,
            exec_retries: 0,
            exec_timeout: 14400,
            prove_retries: 3,
            prove_timeout: 30,
            join_retries: 3,
            join_timeout: 10,
            resolve_retries: 3,
            resolve_timeout: 10,
            finalize_retries: 0,
            finalize_timeout: 10,
            snark_timeout: 240,
            snark_retries: 0,
            grpc_endpoint: Some(String::from_str("http://localhost:50051")),
            enable_grpc: true,
            grpc_poll_time: 1,
        }
    }

    /// The endpoint the agent connects to for the remote task channel: the
    /// configured one, where the channel is enabled.
    pub fn remote_endpoint(&self) -> (endpoint: Option<String>)
        ensures
            endpoint == if self.enable_grpc {
                self.grpc_endpoint
            } else {
                None
            },
    {
        if self.enable_grpc {
            match &self.grpc_endpoint {
                Some(e) => Some(e.clone()),
                None => None,
            }
        } else {
            None
        }
    }

    /// The kind of work of the agent's stream, where the stream is one of
    /// the known ones.
    pub fn work_type(&self) -> (w: Option<WorkType>)
        ensures
            w == work_type_named(self.task_stream@),
    {
        WorkType::from_name(self.task_stream.as_str())
    }
}

impl Agent {
    /// Sets up the agent. `gpu_total_bytes` is the memory of the first
    /// accelerator, where one was found; `remote_connected` says whether
    /// the endpoint of the remote task channel could be reached.
    pub fn new(args: Args, gpu_total_bytes: Option<u64>, remote_connected: bool) -> (agent: Agent)
        ensures
            agent.args == args,
            agent.segment_po2 == args.segment_po2,
            agent.gpu_memory == match gpu_total_bytes {
                Some(bytes) => mebibytes(bytes),
                None => 0,
            },
            agent.needs_prover == stream_needs_prover(args.task_stream@),
            agent.has_remote == (args.enable_grpc && args.grpc_endpoint.is_some()
                && remote_connected),
    {
        let gpu_memory = match gpu_total_bytes {
            Some(bytes) => bytes / 1024 / 1024,
            None => 0,
        };
        let needs_prover = match args.work_type() {
            Some(WorkType::Prove) | Some(WorkType::Join) | Some(WorkType::Coproc) => true,
            _ => false,
        };
        let has_remote = args.enable_grpc && args.grpc_endpoint.is_some() && remote_connected;
        let segment_po2 = args.segment_po2;
        Agent { args, segment_po2, gpu_memory, needs_prover, has_remote }
    }
}

/// The call of a stage handler for a task.
#[derive(Clone, Copy, Debug, PartialEq, Eq, Structural)]
pub struct HandlerCall {
    /// The stage whose handler is called.
    pub stage: Stage,
    /// The job of the task.
    pub job_id: u128,
    /// The id of the task, for the handlers that store their result under it.
    pub task_id: Option<u64>,
}

/// Whether the handler of a stage is told the id of the task: the handlers
/// that produce one receipt per task are.
pub open spec fn takes_task_id(stage: Stage) -> bool {
    stage == Stage::Prove || stage == Stage::Keccak
}

/// The words put in front of the error of a failed handler.
pub open spec fn failure_context(stage: Stage) -> Seq<char> {
    match stage {
        Stage::Executor => "Executor failed"@,
        Stage::Prove => "Prove failed"@,
        Stage::Join => "Join failed"@,
        Stage::Resolve => "Resolve failed"@,
        Stage::Finalize => "Finalize failed"@,
        Stage::Snark => "Snark failed"@,
        Stage::Keccak => "Keccak failed"@,
        Stage::Union => "Union failed"@,
    }
}

/// The handler call that processes a task.
pub fn handler_call(task: &ReadyTask) -> (call: HandlerCall)
    ensures
        call.stage == task.task_def@.stage(),
        call.job_id == task.job_id,
        call.task_id == if takes_task_id(task.task_def@.stage()) {
            Some(task.task_id)
        } else {
            None
        },
{
    let stage = task.task_def.stage();
    let task_id = match stage {
        Stage::Prove | Stage::Keccak => Some(task.task_id),
        _ => None,
    };
    HandlerCall { stage, job_id: task.job_id, task_id }
}

/// The words put in front of the error of a failed handler of a stage.
pub fn handler_failure_context(stage: Stage) -> (words: &'static str)
    ensures
        words@ == failure_context(stage),
{
    match stage {
        Stage::Executor => "Executor failed",
        Stage::Prove => "Prove failed",
        Stage::Join => "Join failed",
        Stage::Resolve => "Resolve failed",
        Stage::Finalize => "Finalize failed",
        Stage::Snark => "Snark failed",
        Stage::Keccak => "Keccak failed",
        Stage::Union => "Union failed",
    }
}

/// What the polling loop of the task queue is told.
#[derive(Debug, PartialEq, Eq)]
pub enum PollEvent {
    /// The loop is at its top; `terminated` says whether shutdown was asked for.
    Wake { terminated: bool },
    /// The queue has no task for the agent.
    NoWork,
    /// The queue handed out a task.
    Work(ReadyTask),
    /// The task was processed, with the error where processing failed.
    Processed { job_id: u128, task_id: u64, attempt: i32, max_retries: i32, error: Option<String> },
    /// The queue took the report of a failure.
    Reported,
    /// The queue could not be reached.
    QueueFailed,
    /// The update for the remote task channel could not be delivered.
    NotificationFailed,
}

/// What the polling loop of the task queue does next.
#[derive(Debug, PartialEq, Eq)]
pub enum PollAction {
    /// Leave the loop: shutdown was asked for.
    Stop,
    /// Go to the top of the loop.
    Continue,
    /// Ask the queue for the next task on the stream.
    RequestWork(String),
    /// Wait for the given number of seconds, then go to the top of the loop.
    Sleep(u64),
    /// Process the task.
    Process(ReadyTask),
    /// Ask the queue for another attempt at the task.
    MarkRetry { job_id: u128, task_id: u64, attempt: i32 },
    /// Tell the queue that the task failed for good.
    MarkFailed { job_id: u128, task_id: u64, attempt: i32, error: String },
}

/// Whether `action` is what the polling loop does on `event`.
///
/// Nothing but shutdown ends the loop. After a failure of processing the
/// task is given another attempt where it was granted retries, and is failed
/// with the stored form of the error where it was not. A queue that cannot
/// be reached is asked again after the pause between polls. An update that
/// could not be delivered is passed over: the task it reports is done.
pub open spec fn poll_decision(args: Args, event: PollEvent, action: PollAction) -> bool {
    match event {
        PollEvent::Wake { terminated } => if terminated {
            action == PollAction::Stop
        } else {
            action == PollAction::RequestWork(args.task_stream)
        },
        PollEvent::NoWork => action == PollAction::Sleep(args.poll_time),
        PollEvent::Work(task) => action == PollAction::Process(task),
        PollEvent::Processed { job_id, task_id, attempt, max_retries, error } => match error {
            None => action == PollAction::Continue,
            Some(e) => if max_retries > 0 {
                action == (PollAction::MarkRetry { job_id, task_id, attempt })
            } else {
                &&& action is MarkFailed
                &&& action->MarkFailed_job_id == job_id
                &&& action->MarkFailed_task_id == task_id
                &&& action->MarkFailed_attempt == attempt
                &&& action->MarkFailed_error@ == truncated(e@)
            },
        },
        PollEvent::Reported => action == PollAction::Continue,
        PollEvent::QueueFailed => action == PollAction::Sleep(args.poll_time),
        PollEvent::NotificationFailed => action == PollAction::Continue,
    }
}

/// Only shutdown stops the polling loop, and shutdown always does: the loop
/// is left on no event but the one at its top that sees the shutdown flag.
pub proof fn lemma_only_shutdown_stops_polling(args: Args, event: PollEvent, action: PollAction)
    requires
        poll_decision(args, event, action),
    ensures
        action == PollAction::Stop <==> event == (PollEvent::Wake { terminated: true }),
{
}

/// What the loop of the remote task channel is told.
#[derive(Debug, PartialEq, Eq)]
pub enum ChannelEvent {
    /// The loop is at its top; `terminated` says whether shutdown was asked for.
    Wake { terminated: bool },
    /// The request for assignments was granted: the sequence is open.
    Opened,
    /// The request for assignments was refused or could not be sent.
    RequestFailed,
    /// The remote service pushed an assignment.
    Assignment(TaskAssignment),
    /// The assignment was handled, whether accepted or rejected.
    Handled,
    /// The remote service closed the sequence of assignments.
    StreamEnded,
    /// The sequence of assignments broke.
    StreamFailed,
}

/// What the loop of the remote task channel does next.
#[derive(Debug, PartialEq, Eq)]
pub enum ChannelAction {
    /// Leave the loop: shutdown was asked for.
    Stop,
    /// Ask for assignments, advertising the given memory in mebibytes.
    RequestTasks { gpu_memory: u64 },
    /// Take the next assignment of the open sequence.
    Receive,
    /// Turn the assignment into a job.
    Process(TaskAssignment),
    /// Wait for the given number of seconds, then go to the top of the loop.
    Sleep(u64),
}

/// The seconds to wait after a refused request: the pause after the failure
/// and the pause at the end of the round.
pub open spec fn refusal_pause(grpc_poll_time: u64) -> u64 {
    if grpc_poll_time > u64::MAX / 2 {
        u64::MAX
    } else {
        (2 * grpc_poll_time) as u64
    }
}

/// Whether `action` is what the loop of the remote task channel does on
/// `event`.
///
/// Nothing but shutdown ends the loop. The sequence of assignments is asked
/// for again, after a pause, whenever it ends, breaks, or the request is
/// refused. An assignment that is rejected does not end the sequence.
pub open spec fn channel_decision(agent: Agent, event: ChannelEvent, action: ChannelAction) -> bool {
    match event {
        ChannelEvent::Wake { terminated } => if terminated {
            action == ChannelAction::Stop
        } else if agent.has_remote {
            action == (ChannelAction::RequestTasks { gpu_memory: agent.gpu_memory })
        } else {
            action == ChannelAction::Sleep(agent.args.grpc_poll_time)
        },
        ChannelEvent::Opened => action == ChannelAction::Receive,
        ChannelEvent::RequestFailed => action == ChannelAction::Sleep(
            refusal_pause(agent.args.grpc_poll_time),
        ),
        ChannelEvent::Assignment(task) => action == ChannelAction::Process(task),
        ChannelEvent::Handled => action == ChannelAction::Receive,
        ChannelEvent::StreamEnded => action == ChannelAction::Sleep(agent.args.grpc_poll_time),
        ChannelEvent::StreamFailed => action == ChannelAction::Sleep(agent.args.grpc_poll_time),
    }
}

/// Only shutdown stops the loop of the remote task channel, and shutdown
/// always does.
pub proof fn lemma_only_shutdown_stops_channel(agent: Agent, event: ChannelEvent, action: ChannelAction)
    requires
        channel_decision(agent, event, action),
    ensures
        action == ChannelAction::Stop <==> event == (ChannelEvent::Wake { terminated: true }),
{
}

/// What the scan for timed-out tasks does next.
#[derive(Clone, Copy, Debug, PartialEq, Eq, Structural)]
pub enum RequeueAction {
    /// Leave the loop: shutdown was asked for.
    Stop,
    /// Reclaim at most `limit` timed-out tasks, then wait `pause_secs`.
    Scan { limit: usize, pause_secs: u64 },
}

impl Agent {
    /// Decides the next step of the polling loop of the task queue.
    pub fn poll_work(&self, event: PollEvent) -> (action: PollAction)
        ensures
            poll_decision(self.args, event, action),
    {
        match event {
            PollEvent::Wake { terminated } => {
                if terminated {
                    PollAction::Stop
                } else {
                    PollAction::RequestWork(self.args.task_stream.clone())
                }
            },
            PollEvent::NoWork => PollAction::Sleep(self.args.poll_time),
            PollEvent::Work(task) => PollAction::Process(task),
            PollEvent::Processed { job_id, task_id, attempt, max_retries, error } => match error {
                None => PollAction::Continue,
                Some(e) => {
                    if max_retries > 0 {
                        PollAction::MarkRetry { job_id, task_id, attempt }
                    } else {
                        PollAction::MarkFailed {
                            job_id,
                            task_id,
                            attempt,
                            error: truncate_error(e.as_str()),
                        }
                    }
                },
            },
            PollEvent::Reported => PollAction::Continue,
            PollEvent::QueueFailed => PollAction::Sleep(self.args.poll_time),
            PollEvent::NotificationFailed => PollAction::Continue,
        }
    }

    /// Decides the next step of the loop of the remote task channel.
    pub fn poll_grpc_tasks(&self, event: ChannelEvent) -> (action: ChannelAction)
        ensures
            channel_decision(*self, event, action),
    {
        match event {
            ChannelEvent::Wake { terminated } => {
                if terminated {
                    ChannelAction::Stop
                } else if self.has_remote {
                    ChannelAction::RequestTasks { gpu_memory: self.gpu_memory }
                } else {
                    ChannelAction::Sleep(self.args.grpc_poll_time)
                }
            },
            ChannelEvent::Opened => ChannelAction::Receive,
            ChannelEvent::RequestFailed => {
                let pause = self.args.grpc_poll_time;
                if pause > u64::MAX / 2 {
                    ChannelAction::Sleep(u64::MAX)
                } else {
                    ChannelAction::Sleep(2 * pause)
                }
            },
            ChannelEvent::Assignment(task) => ChannelAction::Process(task),
            ChannelEvent::Handled => ChannelAction::Receive,
            ChannelEvent::StreamEnded => ChannelAction::Sleep(self.args.grpc_poll_time),
            ChannelEvent::StreamFailed => ChannelAction::Sleep(self.args.grpc_poll_time),
        }
    }

    /// Whether the agent runs the scan for timed-out tasks beside its
    /// polling loop.
    pub fn runs_requeue(&self) -> (runs: bool)
        ensures
            runs == self.args.monitor_requeue,
    {
        self.args.monitor_requeue
    }

    /// Decides the next step of the scan for timed-out tasks.
    pub fn poll_for_requeue(terminated: bool) -> (action: RequeueAction)
        ensures
            action == if terminated {
                RequeueAction::Stop
            } else {
                RequeueAction::Scan { limit: REQUEUE_BATCH, pause_secs: REQUEUE_INTERVAL_SECS }
            },
    {
        if terminated {
            RequeueAction::Stop
        } else {
            RequeueAction::Scan { limit: REQUEUE_BATCH, pause_secs: REQUEUE_INTERVAL_SECS }
        }
    }
}

} // verus!
