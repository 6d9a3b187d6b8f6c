use risc0_zkvm::sha::Digest;
use risc0_zkvm::{FakeReceipt, InnerReceipt, Receipt, ReceiptClaim};
use workflow::agent::{Agent, Args};
use workflow::artifact::ArtifactStore;
use workflow::cycle::{settle_upload, IntakeError, WorkReport};
use workflow::lifecycle::TaskStatus;
use workflow::queue::{QueueError, ReadyTask, TaskOutput, TaskQueue, INIT_TASK};
use workflow::remote::{
    Groth16TaskDetails, InputData, Rejection, StarkTaskDetails, TaskAssignment, TaskDetails,
};
use workflow::report::{
    ProgressStatus, ProgressUpdate, UploadError, UploadPlan, UploadRequest,
};
use workflow::work::{
    CompressType, ExecutorReq, ExecutorResp, SnarkReq, Stage, TaskType, WorkType,
};

const TASK_ID: &str = "550e8400-e29b-41d4-a716-446655440000";
const JOB: u128 = 0x550e8400_e29b_41d4_a716_446655440000;
const FRESH: u128 = 0x936da01f_9abd_4d9d_80c7_02af85c822a8;

fn cycle_args() -> Args {
    Args {
        task_stream: "exec".to_string(),
        poll_time: 1,
        database_url: String::new(),
        redis_url: String::new(),
        segment_po2: 20,
        db_max_connections: 1,
        redis_ttl: 28800,
        exec_cycle_limit: 100_000,
        s3_bucket: String::new(),
        s3_access_key: String::new(),
        s3_secret_key: String::new(),
        s3_url: String::new(),
        monitor_requeue: false,
        exec_retries: 0,
        exec_timeout: 14400,
        prove_retries: 3,
        prove_timeout: 30,
        join_retries: 3,
        join_timeout: 10,
        resolve_retries: 3,
        resolve_timeout: 10,
        finalize_retries: 0,
        finalize_timeout: 10,
        snark_timeout: 240,
        snark_retries: 2,
        grpc_endpoint: Some("http://localhost:50051".to_string()),
        enable_grpc: true,
        grpc_poll_time: 1,
    }
}

fn remote_agent() -> Agent {
    Agent::new(cycle_args(), None, true)
}

fn local_agent() -> Agent {
    Agent::new(cycle_args(), None, false)
}

fn stark_assignment(task_id: &str) -> TaskAssignment {
    TaskAssignment {
        task_id: task_id.to_string(),
        task_details: Some(TaskDetails::StarkTask(StarkTaskDetails {
            image_id: "abc123".to_string(),
            elf_data: vec![1, 2, 3, 4],
            input_data: Some(InputData { id: String::new(), data: vec![5, 6] }),
            exec_cycle_limit: 0,
            assumption_inputs: vec![],
            execute_only: false,
        })),
    }
}

fn groth16_assignment(task_id: &str) -> TaskAssignment {
    TaskAssignment {
        task_id: task_id.to_string(),
        task_details: Some(TaskDetails::Groth16Task(Groth16TaskDetails {
            source_task_id: "source".to_string(),
            stark_receipt_data: vec![7, 8, 9],
        })),
    }
}

fn executed(segments: u64) -> TaskOutput {
    TaskOutput::Executor(ExecutorResp {
        segments,
        user_cycles: 10,
        total_cycles: 20,
        assumption_count: 0,
    })
}

fn stored_receipt(journal: Vec<u8>) -> Vec<u8> {
    let claim = ReceiptClaim::ok(Digest::ZERO, journal.clone());
    let receipt = Receipt::new(InnerReceipt::Fake(FakeReceipt::new(claim)), journal);
    bincode::serialize(&receipt).unwrap()
}

fn journal_of(stored: &[u8]) -> Option<Vec<u8>> {
    bincode::deserialize::<Receipt>(stored).ok().map(|receipt| receipt.journal.bytes)
}

#[test]
fn program_with_another_image_id_never_enters_the_queue() {
    let mut store = ArtifactStore::new();
    let mut queue = TaskQueue::new();
    let taken = remote_agent().take_assignment(
        &mut store,
        &mut queue,
        &stark_assignment(TASK_ID),
        Some("abc124".to_string()),
        FRESH,
    );
    assert_eq!(taken, Err(IntakeError::Rejected(Rejection::ImageIdMismatch)));
    assert_eq!(queue.len(), 0);
    assert_eq!(queue.stream_count(), 0);
    assert_eq!(queue.status(JOB, INIT_TASK), None);
    assert!(!store.object_exists("elfs/abc123"));
    assert!(!store.object_exists("inputs/936da01f-9abd-4d9d-80c7-02af85c822a8"));
}

#[test]
fn accepted_assignment_is_stored_and_queued_for_execution() {
    let mut store = ArtifactStore::new();
    let mut queue = TaskQueue::new();
    let taken = remote_agent().take_assignment(
        &mut store,
        &mut queue,
        &stark_assignment(TASK_ID),
        Some("abc123".to_string()),
        FRESH,
    );
    assert_eq!(taken, Ok(JOB));
    assert_eq!(store.read("elfs/abc123"), Some(vec![1, 2, 3, 4]));
    assert_eq!(store.read("inputs/936da01f-9abd-4d9d-80c7-02af85c822a8"), Some(vec![5, 6]));
    assert_eq!(queue.len(), 1);
    assert_eq!(queue.stream_count(), 6);
    assert_eq!(queue.stream_owner(JOB, INIT_TASK), Some("grpc".to_string()));
    assert_eq!(
        queue.request_work(WorkType::Exec, 0),
        Some(ReadyTask {
            job_id: JOB,
            task_id: INIT_TASK,
            task_def: TaskType::Executor(ExecutorReq {
                image: "abc123".to_string(),
                input: "936da01f-9abd-4d9d-80c7-02af85c822a8".to_string(),
                user_id: "grpc".to_string(),
                assumptions: vec![],
                execute_only: false,
                compress: CompressType::Plain,
                exec_limit: Some(100_000),
            }),
            attempt: 0,
            max_retries: 0,
        })
    );
}

#[test]
fn assignment_with_bad_id_leaves_the_queue_alone() {
    let mut store = ArtifactStore::new();
    let mut queue = TaskQueue::new();
    let taken = remote_agent().take_assignment(
        &mut store,
        &mut queue,
        &stark_assignment("test-task-1"),
        Some("abc123".to_string()),
        FRESH,
    );
    assert_eq!(taken, Err(IntakeError::Rejected(Rejection::InvalidTaskId)));
    assert_eq!(queue.len(), 0);
    assert_eq!(queue.stream_count(), 0);
    assert!(store.object_exists("elfs/abc123"));
}

#[test]
fn assignment_without_details_is_rejected() {
    let mut store = ArtifactStore::new();
    let mut queue = TaskQueue::new();
    let empty = TaskAssignment { task_id: TASK_ID.to_string(), task_details: None };
    let taken = remote_agent().take_assignment(&mut store, &mut queue, &empty, None, FRESH);
    assert_eq!(taken, Err(IntakeError::Rejected(Rejection::DetailsMissing)));
    assert_eq!(queue.len(), 0);
}

#[test]
fn same_assignment_twice_is_refused_by_the_queue() {
    let mut store = ArtifactStore::new();
    let mut queue = TaskQueue::new();
    let agent = remote_agent();
    let first = agent.take_assignment(
        &mut store,
        &mut queue,
        &stark_assignment(TASK_ID),
        Some("abc123".to_string()),
        FRESH,
    );
    assert_eq!(first, Ok(JOB));
    let second = agent.take_assignment(
        &mut store,
        &mut queue,
        &stark_assignment(TASK_ID),
        Some("abc123".to_string()),
        FRESH,
    );
    assert_eq!(second, Err(IntakeError::Refused(QueueError::JobExists)));
    assert_eq!(queue.len(), 1);
    assert_eq!(queue.stream_count(), 6);
    assert_eq!(store.read("elfs/abc123"), Some(vec![1, 2, 3, 4]));
}

#[test]
fn stored_program_is_kept_when_it_arrives_again() {
    let mut store = ArtifactStore::new();
    store.write_if_absent("elfs/abc123", vec![9, 9, 9]);
    let mut queue = TaskQueue::new();
    let taken = remote_agent().take_assignment(
        &mut store,
        &mut queue,
        &stark_assignment(TASK_ID),
        Some("abc123".to_string()),
        FRESH,
    );
    assert_eq!(taken, Ok(JOB));
    assert_eq!(store.read("elfs/abc123"), Some(vec![9, 9, 9]));
}

#[test]
fn groth16_assignment_is_queued_for_wrapping() {
    let mut store = ArtifactStore::new();
    let mut queue = TaskQueue::new();
    let taken = remote_agent().take_assignment(
        &mut store,
        &mut queue,
        &groth16_assignment(TASK_ID),
        None,
        FRESH,
    );
    assert_eq!(taken, Ok(JOB));
    assert_eq!(store.read(&format!("receipts/stark/{TASK_ID}.bincode")), Some(vec![7, 8, 9]));
    assert_eq!(queue.request_work(WorkType::Exec, 0), None);
    let task = queue.request_work(WorkType::Snark, 0).unwrap();
    assert_eq!(
        task.task_def,
        TaskType::Snark(SnarkReq {
            receipt: TASK_ID.to_string(),
            compress_type: CompressType::Groth16
        })
    );
    assert_eq!(task.max_retries, 2);
    assert_eq!(queue.state(JOB, INIT_TASK).unwrap().timeout_secs, 240);
}

#[test]
fn finished_executor_of_a_remote_job_reports_its_totals() {
    let mut store = ArtifactStore::new();
    let mut queue = TaskQueue::new();
    let agent = remote_agent();
    agent
        .take_assignment(
            &mut store,
            &mut queue,
            &stark_assignment(TASK_ID),
            Some("abc123".to_string()),
            FRESH,
        )
        .unwrap();
    let task = queue.request_work(WorkType::Exec, 0).unwrap();
    let report = agent.process_work(&mut queue, &task, Ok(executed(2)));
    assert_eq!(
        report,
        WorkReport {
            applied: true,
            update: Some(ProgressUpdate {
                task_id: TASK_ID.to_string(),
                status: ProgressStatus::GeneratingProof,
                message: "Task is executing".to_string(),
                total_segments: Some(2),
                total_cycles: Some(20),
            }),
            deliver: false,
        }
    );
    assert_eq!(queue.len(), 3);
    assert_eq!(queue.stream_owner(JOB, 1), Some("grpc".to_string()));
    let again = agent.process_work(&mut queue, &task, Ok(executed(2)));
    assert_eq!(again, WorkReport { applied: false, update: None, deliver: false });
    assert_eq!(queue.len(), 3);
}

#[test]
fn finished_wrapping_of_a_remote_job_asks_for_delivery() {
    let mut store = ArtifactStore::new();
    let mut queue = TaskQueue::new();
    let agent = remote_agent();
    agent
        .take_assignment(&mut store, &mut queue, &groth16_assignment(TASK_ID), None, FRESH)
        .unwrap();
    let task = queue.request_work(WorkType::Snark, 0).unwrap();
    let report = agent.process_work(&mut queue, &task, Ok(TaskOutput::Opaque));
    assert!(report.applied);
    assert!(report.deliver);
    assert_eq!(report.update.unwrap().status, ProgressStatus::Completed);
    assert_eq!(queue.status(JOB, INIT_TASK), Some(TaskStatus::Done));
}

#[test]
fn local_jobs_and_agents_without_channel_report_nothing() {
    let mut queue = TaskQueue::new();
    let stream = queue.get_or_create_stream("tenant", WorkType::Snark);
    let def = TaskType::Snark(SnarkReq {
        receipt: "r".to_string(),
        compress_type: CompressType::Groth16,
    });
    queue.create_job(1, stream, def.clone(), 0, 10).unwrap();
    let task = queue.request_work(WorkType::Snark, 0).unwrap();
    let report = remote_agent().process_work(&mut queue, &task, Ok(TaskOutput::Opaque));
    assert_eq!(report, WorkReport { applied: true, update: None, deliver: false });

    let remote = queue.get_or_create_stream("grpc", WorkType::Snark);
    queue.create_job(2, remote, def, 0, 10).unwrap();
    let task = queue.request_work(WorkType::Snark, 0).unwrap();
    let report = local_agent().process_work(&mut queue, &task, Ok(TaskOutput::Opaque));
    assert_eq!(report, WorkReport { applied: true, update: None, deliver: false });
}

#[test]
fn failed_handler_costs_a_retry_or_the_task() {
    let mut queue = TaskQueue::new();
    let stream = queue.get_or_create_stream("tenant", WorkType::Snark);
    let def = TaskType::Snark(SnarkReq {
        receipt: "r".to_string(),
        compress_type: CompressType::Groth16,
    });
    queue.create_job(1, stream, def.clone(), 1, 10).unwrap();
    queue.create_job(2, stream, def, 0, 10).unwrap();
    let agent = local_agent();

    let retried = queue.request_work(WorkType::Snark, 0).unwrap();
    let report = agent.process_work(&mut queue, &retried, Err("transient".to_string()));
    assert_eq!(report, WorkReport { applied: true, update: None, deliver: false });
    assert_eq!(queue.status(1, INIT_TASK), Some(TaskStatus::Pending));
    assert_eq!(queue.state(1, INIT_TASK).unwrap().retries, 1);
    assert_eq!(queue.error(1, INIT_TASK), None);

    let failed = queue.request_work(WorkType::Snark, 1).unwrap();
    assert_eq!(failed.job_id, 1);
    assert!(agent.process_work(&mut queue, &failed, Err("again".to_string())).applied);
    assert_eq!(queue.status(1, INIT_TASK), Some(TaskStatus::Failed));

    let hopeless = queue.request_work(WorkType::Snark, 2).unwrap();
    assert_eq!(hopeless.job_id, 2);
    let long = "e".repeat(3000);
    assert!(agent.process_work(&mut queue, &hopeless, Err(long)).applied);
    assert_eq!(queue.status(2, INIT_TASK), Some(TaskStatus::Failed));
    assert_eq!(queue.error(2, INIT_TASK), Some("e".repeat(1024)));
    assert_eq!(queue.request_work(WorkType::Snark, 3), None);
}

#[test]
fn acknowledged_delivery_gives_up_the_local_copy() {
    let mut store = ArtifactStore::new();
    let agent = remote_agent();
    let key = format!("receipts/groth16/{TASK_ID}.bincode");
    assert_eq!(
        agent.upload_task_result(&store, Stage::Snark, JOB, None),
        Err(UploadError::ReceiptMissing)
    );
    store.write_if_absent(&key, vec![1, 2, 3]);
    store.write_if_absent("elfs/keep", vec![4]);
    let plan = agent.upload_task_result(&store, Stage::Snark, JOB, None).unwrap();
    assert_eq!(
        plan,
        UploadPlan {
            request: UploadRequest::Groth16 {
                task_id: TASK_ID.to_string(),
                proof_data: vec![1, 2, 3],
                description: "Groth16 proof from SNARK task".to_string(),
            },
            delete_key: key.clone(),
        }
    );
    assert_eq!(store.read(&key), Some(vec![1, 2, 3]));
    settle_upload(&mut store, &plan.delete_key, true);
    assert!(!store.object_exists(&key));
    assert_eq!(store.read("elfs/keep"), Some(vec![4]));
}

#[test]
fn failed_or_refused_delivery_keeps_the_local_copy() {
    let mut store = ArtifactStore::new();
    let key = format!("receipts/groth16/{TASK_ID}.bincode");
    store.write_if_absent(&key, vec![1, 2, 3]);
    let plan = remote_agent().upload_task_result(&store, Stage::Snark, JOB, None).unwrap();
    settle_upload(&mut store, &plan.delete_key, false);
    assert_eq!(store.read(&key), Some(vec![1, 2, 3]));
    let again = remote_agent().upload_task_result(&store, Stage::Snark, JOB, None).unwrap();
    assert_eq!(again, plan);
}

#[test]
fn undecodable_receipt_stays_in_the_store() {
    let mut store = ArtifactStore::new();
    let key = format!("receipts/stark/{TASK_ID}.bincode");
    store.write_if_absent(&key, vec![1, 2, 3]);
    let journal = journal_of(&[1, 2, 3]);
    assert_eq!(journal, None);
    assert_eq!(
        remote_agent().upload_task_result(&store, Stage::Finalize, JOB, journal),
        Err(UploadError::ReceiptUndecodable)
    );
    assert_eq!(store.read(&key), Some(vec![1, 2, 3]));
}

#[test]
fn stored_receipt_is_delivered_with_its_journal() {
    let mut store = ArtifactStore::new();
    let key = format!("receipts/stark/{TASK_ID}.bincode");
    let receipt = stored_receipt(vec![1, 0, 0, 0]);
    store.write_if_absent(&key, receipt.clone());
    let journal = journal_of(&receipt);
    assert_eq!(journal, Some(vec![1, 0, 0, 0]));
    let plan = remote_agent().upload_task_result(&store, Stage::Finalize, JOB, journal);
    assert_eq!(
        plan,
        Ok(UploadPlan {
            request: UploadRequest::Stark {
                task_id: TASK_ID.to_string(),
                receipt_data: receipt.clone(),
                journal_data: vec![4, 0, 0, 0, 0, 0, 0, 0, 1, 0, 0, 0],
                description: "STARK receipt from Executor task".to_string(),
            },
            delete_key: key.clone(),
        })
    );
    assert_eq!(store.read(&key), Some(receipt));
    settle_upload(&mut store, &key, true);
    assert!(!store.object_exists(&key));
}

#[test]
fn assignment_is_acknowledged_by_an_agent_on_the_channel_only() {
    let task = stark_assignment(TASK_ID);
    assert_eq!(
        remote_agent().acknowledgement(&task),
        Some(ProgressUpdate {
            task_id: TASK_ID.to_string(),
            status: ProgressStatus::Pending,
            message: "Task received".to_string(),
            total_segments: None,
            total_cycles: None,
        })
    );
    assert_eq!(local_agent().acknowledgement(&task), None);
}

#[test]
fn unacknowledged_assignment_touches_neither_store_nor_queue() {
    let mut store = ArtifactStore::new();
    let mut queue = TaskQueue::new();
    let taken = remote_agent().process_grpc_task(
        &mut store,
        &mut queue,
        &stark_assignment(TASK_ID),
        false,
        Some("abc123".to_string()),
    );
    assert_eq!(taken, Err(IntakeError::Unacknowledged));
    assert_eq!(queue.len(), 0);
    assert_eq!(queue.stream_count(), 0);
    assert!(!store.object_exists("elfs/abc123"));
}

#[test]
fn inline_input_of_an_assignment_gets_a_fresh_id() {
    let mut store = ArtifactStore::new();
    let mut queue = TaskQueue::new();
    let taken = remote_agent().process_grpc_task(
        &mut store,
        &mut queue,
        &stark_assignment(TASK_ID),
        true,
        Some("abc123".to_string()),
    );
    assert_eq!(taken, Ok(JOB));
    let task = queue.request_work(WorkType::Exec, 0).unwrap();
    let input = match task.task_def {
        TaskType::Executor(request) => request.input,
        other => panic!("the job starts with {other:?}"),
    };
    assert_eq!(input.len(), 36);
    assert_eq!(store.read(&format!("inputs/{input}")), Some(vec![5, 6]));
    assert_eq!(store.read("elfs/abc123"), Some(vec![1, 2, 3, 4]));
}

#[test]
fn rejected_assignment_is_not_queued() {
    let mut store = ArtifactStore::new();
    let mut queue = TaskQueue::new();
    let taken = remote_agent().process_grpc_task(
        &mut store,
        &mut queue,
        &stark_assignment(TASK_ID),
        true,
        Some("other".to_string()),
    );
    assert_eq!(taken, Err(IntakeError::Rejected(Rejection::ImageIdMismatch)));
    assert_eq!(queue.len(), 0);
    let silent = local_agent().process_grpc_task(
        &mut store,
        &mut queue,
        &groth16_assignment(TASK_ID),
        false,
        None,
    );
    assert_eq!(silent, Ok(JOB));
}

#[test]
fn store_is_asked_only_for_what_the_plan_goes_by() {
    let mut store = ArtifactStore::new();
    store.write_if_absent(&format!("receipts/stark/{TASK_ID}.bincode"), vec![0]);
    store.write_if_absent("elfs/abc123", vec![9]);
    let mut queue = TaskQueue::new();
    let taken = remote_agent().take_assignment(
        &mut store,
        &mut queue,
        &stark_assignment(TASK_ID),
        Some("other".to_string()),
        FRESH,
    );
    assert_eq!(taken, Err(IntakeError::Rejected(Rejection::ImageIdMismatch)));
    assert_eq!(store.read("elfs/abc123"), Some(vec![9]));
    let taken = remote_agent().take_assignment(
        &mut store,
        &mut queue,
        &groth16_assignment(TASK_ID),
        None,
        FRESH,
    );
    assert_eq!(taken, Ok(JOB));
    assert_eq!(store.read(&format!("receipts/stark/{TASK_ID}.bincode")), Some(vec![0]));
}
