use workflow::agent::{
    handler_call, handler_failure_context, truncate_error, Agent, Args, ChannelAction,
    ChannelEvent, HandlerCall, PollAction, PollEvent, RequeueAction, RetryPolicy,
    MAX_ERROR_CHARS, REQUEUE_BATCH, REQUEUE_INTERVAL_SECS,
};
use workflow::queue::ReadyTask;
use workflow::remote::TaskAssignment;
use workflow::work::{
    CompressType, FinalizeReq, JoinReq, KeccakReq, ProveReq, SnarkReq, Stage, TaskType, WorkType,
};

fn agent_args(task_stream: &str) -> Args {
    Args {
        task_stream: task_stream.to_string(),
        poll_time: 3,
        database_url: "postgres://db".to_string(),
        redis_url: "redis://cache".to_string(),
        segment_po2: 20,
        db_max_connections: 1,
        redis_ttl: 28800,
        exec_cycle_limit: 100_000,
        s3_bucket: "bucket".to_string(),
        s3_access_key: "key".to_string(),
        s3_secret_key: "secret".to_string(),
        s3_url: "http://s3".to_string(),
        monitor_requeue: true,
        exec_retries: 0,
        exec_timeout: 14400,
        prove_retries: 3,
        prove_timeout: 30,
        join_retries: 4,
        join_timeout: 10,
        resolve_retries: 5,
        resolve_timeout: 11,
        finalize_retries: 6,
        finalize_timeout: 12,
        snark_timeout: 240,
        snark_retries: 7,
        grpc_endpoint: Some("http://localhost:50051".to_string()),
        enable_grpc: true,
        grpc_poll_time: 4,
    }
}

fn agent(task_stream: &str) -> Agent {
    Agent::new(agent_args(task_stream), Some(8 * 1024 * 1024 * 1024), true)
}

fn ready() -> ReadyTask {
    ReadyTask {
        job_id: 1,
        task_id: 2,
        task_def: TaskType::Prove(ProveReq { index: 1 }),
        attempt: 0,
        max_retries: 3,
    }
}

#[test]
fn gpu_memory_is_advertised_in_mebibytes() {
    assert_eq!(agent("exec").gpu_memory, 8192);
    assert_eq!(Agent::new(agent_args("exec"), Some(1024 * 1024 - 1), true).gpu_memory, 0);
    assert_eq!(Agent::new(agent_args("exec"), Some(3 * 1024 * 1024 + 5), true).gpu_memory, 3);
    assert_eq!(Agent::new(agent_args("exec"), Some(u64::MAX), true).gpu_memory, 17592186044415);
    assert_eq!(Agent::new(agent_args("exec"), None, true).gpu_memory, 0);
}

#[test]
fn prover_is_held_on_proving_joining_and_coprocessor_streams() {
    assert!(agent("prove").needs_prover);
    assert!(agent("join").needs_prover);
    assert!(agent("coproc").needs_prover);
    assert!(!agent("exec").needs_prover);
    assert!(!agent("aux").needs_prover);
    assert!(!agent("snark").needs_prover);
    assert!(!agent("unknown").needs_prover);
}

#[test]
fn remote_channel_needs_switch_endpoint_and_connection() {
    assert!(agent("exec").has_remote);
    assert!(!Agent::new(agent_args("exec"), None, false).has_remote);
    let mut disabled = agent_args("exec");
    disabled.enable_grpc = false;
    assert_eq!(disabled.remote_endpoint(), None);
    assert!(!Agent::new(disabled, None, true).has_remote);
    let mut nowhere = agent_args("exec");
    nowhere.grpc_endpoint = None;
    assert_eq!(nowhere.remote_endpoint(), None);
    assert!(!Agent::new(nowhere, None, true).has_remote);
    assert_eq!(agent_args("exec").remote_endpoint(), Some("http://localhost:50051".to_string()));
}

#[test]
fn agent_keeps_its_settings() {
    let a = agent("join");
    assert_eq!(a.args, agent_args("join"));
    assert_eq!(a.segment_po2, 20);
    assert_eq!(a.args.work_type(), Some(WorkType::Join));
    assert_eq!(agent_args("nothing").work_type(), None);
    assert!(a.runs_requeue());
}

#[test]
fn every_stage_has_its_policy() {
    let args = agent_args("exec");
    let expected = [
        (Stage::Executor, 0, 14400),
        (Stage::Prove, 3, 30),
        (Stage::Join, 4, 10),
        (Stage::Resolve, 5, 11),
        (Stage::Finalize, 6, 12),
        (Stage::Snark, 7, 240),
        (Stage::Keccak, 3, 30),
        (Stage::Union, 4, 10),
    ];
    for (stage, max_retries, timeout_secs) in expected {
        assert_eq!(args.policy(stage), RetryPolicy { max_retries, timeout_secs });
    }
}

#[test]
fn error_is_stored_with_at_most_1024_characters() {
    assert_eq!(MAX_ERROR_CHARS, 1024);
    assert_eq!(truncate_error(""), "");
    assert_eq!(truncate_error("short"), "short");
    let exact = "x".repeat(1024);
    assert_eq!(truncate_error(&exact), exact);
    let long = format!("{}{}", "a".repeat(1024), "b".repeat(100));
    assert_eq!(truncate_error(&long), "a".repeat(1024));
    let wide = "é".repeat(2000);
    assert_eq!(truncate_error(&wide), "é".repeat(1024));
}

#[test]
fn polling_loop_stops_only_on_shutdown() {
    let a = agent("prove");
    assert_eq!(a.poll_work(PollEvent::Wake { terminated: true }), PollAction::Stop);
    assert_eq!(
        a.poll_work(PollEvent::Wake { terminated: false }),
        PollAction::RequestWork("prove".to_string())
    );
    assert_eq!(a.poll_work(PollEvent::NoWork), PollAction::Sleep(3));
    assert_eq!(a.poll_work(PollEvent::Work(ready())), PollAction::Process(ready()));
    assert_eq!(a.poll_work(PollEvent::Reported), PollAction::Continue);
}

#[test]
fn polling_loop_outlives_unreachable_services() {
    let a = agent("prove");
    assert_eq!(a.poll_work(PollEvent::QueueFailed), PollAction::Sleep(3));
    assert_eq!(a.poll_work(PollEvent::NotificationFailed), PollAction::Continue);
}

#[test]
fn handler_is_chosen_by_the_stage_of_the_task() {
    let defs = [
        (TaskType::Prove(ProveReq { index: 1 }), Stage::Prove, Some(2)),
        (TaskType::Keccak(KeccakReq { index: 0, po2: 17 }), Stage::Keccak, Some(2)),
        (TaskType::Join(JoinReq { idx: 3, left: 0, right: 1 }), Stage::Join, None),
        (TaskType::Finalize(FinalizeReq { max_idx: 4 }), Stage::Finalize, None),
        (
            TaskType::Snark(SnarkReq {
                receipt: "r".to_string(),
                compress_type: CompressType::Groth16,
            }),
            Stage::Snark,
            None,
        ),
    ];
    for (task_def, stage, task_id) in defs {
        let task = ReadyTask { task_def, ..ready() };
        assert_eq!(handler_call(&task), HandlerCall { stage, job_id: 1, task_id });
    }
}

#[test]
fn failed_handlers_are_named_in_the_error() {
    assert_eq!(handler_failure_context(Stage::Executor), "Executor failed");
    assert_eq!(handler_failure_context(Stage::Prove), "Prove failed");
    assert_eq!(handler_failure_context(Stage::Join), "Join failed");
    assert_eq!(handler_failure_context(Stage::Resolve), "Resolve failed");
    assert_eq!(handler_failure_context(Stage::Finalize), "Finalize failed");
    assert_eq!(handler_failure_context(Stage::Snark), "Snark failed");
    assert_eq!(handler_failure_context(Stage::Keccak), "Keccak failed");
    assert_eq!(handler_failure_context(Stage::Union), "Union failed");
}

#[test]
fn failed_processing_is_retried_or_reported() {
    let a = agent("prove");
    let ok = PollEvent::Processed { job_id: 1, task_id: 2, attempt: 0, max_retries: 3, error: None };
    assert_eq!(a.poll_work(ok), PollAction::Continue);
    let retried = PollEvent::Processed {
        job_id: 1,
        task_id: 2,
        attempt: 1,
        max_retries: 1,
        error: Some("transient".to_string()),
    };
    assert_eq!(a.poll_work(retried), PollAction::MarkRetry { job_id: 1, task_id: 2, attempt: 1 });
    let final_failure = PollEvent::Processed {
        job_id: 1,
        task_id: 2,
        attempt: 0,
        max_retries: 0,
        error: Some("z".repeat(5000)),
    };
    assert_eq!(
        a.poll_work(final_failure),
        PollAction::MarkFailed { job_id: 1, task_id: 2, attempt: 0, error: "z".repeat(1024) }
    );
    let negative = PollEvent::Processed {
        job_id: 1,
        task_id: 2,
        attempt: 0,
        max_retries: -1,
        error: Some("e".to_string()),
    };
    assert_eq!(
        a.poll_work(negative),
        PollAction::MarkFailed { job_id: 1, task_id: 2, attempt: 0, error: "e".to_string() }
    );
}

#[test]
fn channel_loop_asks_again_after_a_pause() {
    let a = agent("exec");
    let assignment = TaskAssignment { task_id: "t".to_string(), task_details: None };
    assert_eq!(a.poll_grpc_tasks(ChannelEvent::Wake { terminated: true }), ChannelAction::Stop);
    assert_eq!(
        a.poll_grpc_tasks(ChannelEvent::Wake { terminated: false }),
        ChannelAction::RequestTasks { gpu_memory: 8192 }
    );
    assert_eq!(a.poll_grpc_tasks(ChannelEvent::Opened), ChannelAction::Receive);
    assert_eq!(a.poll_grpc_tasks(ChannelEvent::RequestFailed), ChannelAction::Sleep(8));
    assert_eq!(
        a.poll_grpc_tasks(ChannelEvent::Assignment(assignment.clone())),
        ChannelAction::Process(assignment)
    );
    assert_eq!(a.poll_grpc_tasks(ChannelEvent::Handled), ChannelAction::Receive);
    assert_eq!(a.poll_grpc_tasks(ChannelEvent::StreamEnded), ChannelAction::Sleep(4));
    assert_eq!(a.poll_grpc_tasks(ChannelEvent::StreamFailed), ChannelAction::Sleep(4));
}

#[test]
fn channel_loop_without_connection_only_waits() {
    let a = Agent::new(agent_args("exec"), None, false);
    assert_eq!(
        a.poll_grpc_tasks(ChannelEvent::Wake { terminated: false }),
        ChannelAction::Sleep(4)
    );
    assert_eq!(a.poll_grpc_tasks(ChannelEvent::Wake { terminated: true }), ChannelAction::Stop);
}

#[test]
fn pause_after_a_refused_request_saturates() {
    let mut args = agent_args("exec");
    args.grpc_poll_time = u64::MAX / 2 + 1;
    let a = Agent::new(args, None, true);
    assert_eq!(a.poll_grpc_tasks(ChannelEvent::RequestFailed), ChannelAction::Sleep(u64::MAX));
    let mut args = agent_args("exec");
    args.grpc_poll_time = u64::MAX / 2;
    let a = Agent::new(args, None, true);
    assert_eq!(a.poll_grpc_tasks(ChannelEvent::RequestFailed), ChannelAction::Sleep(u64::MAX - 1));
}

#[test]
fn requeue_scan_takes_a_bounded_batch_every_five_seconds() {
    assert_eq!((REQUEUE_BATCH, REQUEUE_INTERVAL_SECS), (100, 5));
    assert_eq!(Agent::poll_for_requeue(true), RequeueAction::Stop);
    assert_eq!(
        Agent::poll_for_requeue(false),
        RequeueAction::Scan { limit: 100, pause_secs: 5 }
    );
}

#[test]
fn defaults_retry_only_the_stages_that_fail_in_passing() {
    let args = Args::with_defaults(
        "prove".to_string(),
        "postgres://db".to_string(),
        "redis://cache".to_string(),
        "bucket".to_string(),
        "key".to_string(),
        "secret".to_string(),
        "http://s3".to_string(),
    );
    assert_eq!(args.task_stream, "prove");
    assert_eq!(args.database_url, "postgres://db");
    assert_eq!(args.redis_url, "redis://cache");
    assert_eq!(args.s3_bucket, "bucket");
    assert_eq!(args.s3_access_key, "key");
    assert_eq!(args.s3_secret_key, "secret");
    assert_eq!(args.s3_url, "http://s3");
    assert_eq!(args.poll_time, 1);
    assert_eq!(args.segment_po2, 20);
    assert_eq!(args.db_max_connections, 1);
    assert_eq!(args.redis_ttl, 8 * 60 * 60);
    assert_eq!(args.exec_cycle_limit, 100_000);
    assert!(!args.monitor_requeue);
    assert_eq!(args.grpc_endpoint, Some("http://localhost:50051".to_string()));
    assert!(args.enable_grpc);
    assert_eq!(args.grpc_poll_time, 1);
    let expected = [
        (Stage::Executor, 0, 4 * 60 * 60),
        (Stage::Prove, 3, 30),
        (Stage::Join, 3, 10),
        (Stage::Resolve, 3, 10),
        (Stage::Finalize, 0, 10),
        (Stage::Snark, 0, 60 * 4),
        (Stage::Keccak, 3, 30),
        (Stage::Union, 3, 10),
    ];
    for (stage, max_retries, timeout_secs) in expected {
        assert_eq!(args.policy(stage), RetryPolicy { max_retries, timeout_secs });
    }
}
