use workflow::agent::Args;
use workflow::artifact::Artifact;
use workflow::remote::{
    image_mismatch_message, plan_assignment, plan_groth16_task, plan_lookups, plan_stark_task,
    Groth16TaskDetails, IngestFacts, IngestPlan, InputData, JobSpec, Lookups, Rejection,
    StarkTaskDetails, TaskAssignment, TaskDetails,
};
use workflow::work::{CompressType, ExecutorReq, SnarkReq, TaskType, WorkType};

const TASK_ID: &str = "550e8400-e29b-41d4-a716-446655440000";
const JOB: u128 = 0x550e8400_e29b_41d4_a716_446655440000;
const FRESH: u128 = 0x936da01f_9abd_4d9d_80c7_02af85c822a8;
const FRESH_TEXT: &str = "936da01f-9abd-4d9d-80c7-02af85c822a8";

fn remote_args() -> Args {
    Args {
        task_stream: "exec".to_string(),
        poll_time: 1,
        database_url: String::new(),
        redis_url: String::new(),
        segment_po2: 20,
        db_max_connections: 1,
        redis_ttl: 28800,
        exec_cycle_limit: 100_000,
        s3_bucket: String::new(),
        s3_access_key: String::new(),
        s3_secret_key: String::new(),
        s3_url: String::new(),
        monitor_requeue: false,
        exec_retries: 1,
        exec_timeout: 14400,
        prove_retries: 3,
        prove_timeout: 30,
        join_retries: 3,
        join_timeout: 10,
        resolve_retries: 3,
        resolve_timeout: 10,
        finalize_retries: 0,
        finalize_timeout: 10,
        snark_timeout: 240,
        snark_retries: 2,
        grpc_endpoint: None,
        enable_grpc: true,
        grpc_poll_time: 1,
    }
}

fn details() -> StarkTaskDetails {
    StarkTaskDetails {
        image_id: "abc123".to_string(),
        elf_data: vec![0x7f, 0x45, 0x4c, 0x46],
        input_data: Some(InputData { id: "in-1".to_string(), data: vec![1, 2, 3] }),
        exec_cycle_limit: 5,
        assumption_inputs: vec![
            InputData { id: "a1".to_string(), data: vec![9] },
            InputData { id: "a2".to_string(), data: vec![] },
        ],
        execute_only: false,
    }
}

fn facts() -> IngestFacts {
    IngestFacts {
        computed_image_id: Some("abc123".to_string()),
        elf_stored: false,
        input_stored: false,
        fresh_input_id: FRESH,
        receipt_stored: false,
    }
}

fn elf_write() -> Artifact {
    Artifact { key: "elfs/abc123".to_string(), bytes: vec![0x7f, 0x45, 0x4c, 0x46] }
}

fn executor_job(input: &str, exec_limit: u64) -> JobSpec {
    JobSpec {
        job_id: JOB,
        work_type: WorkType::Exec,
        task_def: TaskType::Executor(ExecutorReq {
            image: "abc123".to_string(),
            input: input.to_string(),
            user_id: "grpc".to_string(),
            assumptions: vec!["a1".to_string(), "a2".to_string()],
            execute_only: false,
            compress: CompressType::Plain,
            exec_limit: Some(exec_limit),
        }),
        max_retries: 1,
        timeout_secs: 14400,
        user_id: "grpc".to_string(),
    }
}

#[test]
fn valid_assignment_becomes_an_executor_job() {
    let plan = plan_stark_task(TASK_ID, &details(), &facts(), &remote_args());
    assert_eq!(
        plan,
        IngestPlan {
            writes: vec![
                elf_write(),
                Artifact { key: "inputs/in-1".to_string(), bytes: vec![1, 2, 3] },
            ],
            outcome: Ok(executor_job("in-1", 100_000)),
        }
    );
}

#[test]
fn stored_objects_are_not_written_again() {
    let mut f = facts();
    f.elf_stored = true;
    f.input_stored = true;
    let plan = plan_stark_task(TASK_ID, &details(), &f, &remote_args());
    assert_eq!(plan, IngestPlan { writes: vec![], outcome: Ok(executor_job("in-1", 100_000)) });
}

#[test]
fn larger_cycle_limit_of_the_assignment_wins() {
    let mut d = details();
    d.exec_cycle_limit = 100_001;
    let plan = plan_stark_task(TASK_ID, &d, &facts(), &remote_args());
    assert_eq!(plan.outcome, Ok(executor_job("in-1", 100_001)));
    d.exec_cycle_limit = 100_000;
    let plan = plan_stark_task(TASK_ID, &d, &facts(), &remote_args());
    assert_eq!(plan.outcome, Ok(executor_job("in-1", 100_000)));
}

#[test]
fn mismatching_image_id_is_rejected_before_anything_is_stored() {
    let mut f = facts();
    f.computed_image_id = Some("abc124".to_string());
    let plan = plan_stark_task(TASK_ID, &details(), &f, &remote_args());
    assert_eq!(plan, IngestPlan { writes: vec![], outcome: Err(Rejection::ImageIdMismatch) });
}

#[test]
fn missing_program_is_rejected() {
    let mut d = details();
    d.elf_data = vec![];
    let plan = plan_stark_task(TASK_ID, &d, &facts(), &remote_args());
    assert_eq!(plan, IngestPlan { writes: vec![], outcome: Err(Rejection::ElfMissing) });
}

#[test]
fn program_without_computable_image_id_is_rejected() {
    let mut f = facts();
    f.computed_image_id = None;
    let plan = plan_stark_task(TASK_ID, &details(), &f, &remote_args());
    assert_eq!(plan, IngestPlan { writes: vec![], outcome: Err(Rejection::ImageIdUnavailable) });
}

#[test]
fn missing_input_is_rejected_after_the_program_is_stored() {
    let mut d = details();
    d.input_data = None;
    let plan = plan_stark_task(TASK_ID, &d, &facts(), &remote_args());
    assert_eq!(plan, IngestPlan { writes: vec![elf_write()], outcome: Err(Rejection::InputMissing) });
}

#[test]
fn input_without_id_and_bytes_is_rejected() {
    let mut d = details();
    d.input_data = Some(InputData { id: String::new(), data: vec![] });
    let plan = plan_stark_task(TASK_ID, &d, &facts(), &remote_args());
    assert_eq!(plan, IngestPlan { writes: vec![elf_write()], outcome: Err(Rejection::InputEmpty) });
}

#[test]
fn inline_input_is_stored_under_a_fresh_id() {
    let mut d = details();
    d.input_data = Some(InputData { id: String::new(), data: vec![4, 5] });
    let mut f = facts();
    f.input_stored = true;
    let plan = plan_stark_task(TASK_ID, &d, &f, &remote_args());
    assert_eq!(
        plan,
        IngestPlan {
            writes: vec![
                elf_write(),
                Artifact { key: format!("inputs/{FRESH_TEXT}"), bytes: vec![4, 5] },
            ],
            outcome: Ok(executor_job(FRESH_TEXT, 100_000)),
        }
    );
}

#[test]
fn named_input_that_is_neither_stored_nor_sent_is_rejected() {
    let mut d = details();
    d.input_data = Some(InputData { id: "in-1".to_string(), data: vec![] });
    let plan = plan_stark_task(TASK_ID, &d, &facts(), &remote_args());
    assert_eq!(
        plan,
        IngestPlan { writes: vec![elf_write()], outcome: Err(Rejection::InputDataMissing) }
    );
    let mut f = facts();
    f.input_stored = true;
    let plan = plan_stark_task(TASK_ID, &d, &f, &remote_args());
    assert_eq!(plan.outcome, Ok(executor_job("in-1", 100_000)));
    assert_eq!(plan.writes, vec![elf_write()]);
}

#[test]
fn assignment_id_that_is_no_uuid_is_rejected() {
    for bad in ["", "test-task-1", "550e8400-e29b-41d4-a716-44665544000", "not a uuid at all!"] {
        let plan = plan_stark_task(bad, &details(), &facts(), &remote_args());
        assert_eq!(plan.outcome, Err(Rejection::InvalidTaskId));
        assert_eq!(plan.writes.len(), 2);
    }
}

#[test]
fn assignment_id_is_read_in_every_notation_of_a_uuid() {
    for text in [
        "550e8400-e29b-41d4-a716-446655440000",
        "550E8400-E29B-41D4-A716-446655440000",
        "550e8400e29b41d4a716446655440000",
        "{550e8400-e29b-41d4-a716-446655440000}",
        "urn:uuid:550e8400-e29b-41d4-a716-446655440000",
    ] {
        let plan = plan_stark_task(text, &details(), &facts(), &remote_args());
        assert_eq!(plan.outcome.map(|job| job.job_id), Ok(JOB));
    }
}

#[test]
fn groth16_assignment_becomes_a_snark_job() {
    let d = Groth16TaskDetails {
        source_task_id: "source".to_string(),
        stark_receipt_data: vec![1, 2, 3],
    };
    let plan = plan_groth16_task(TASK_ID, &d, &facts(), &remote_args());
    assert_eq!(
        plan,
        IngestPlan {
            writes: vec![Artifact {
                key: format!("receipts/stark/{TASK_ID}.bincode"),
                bytes: vec![1, 2, 3],
            }],
            outcome: Ok(JobSpec {
                job_id: JOB,
                work_type: WorkType::Snark,
                task_def: TaskType::Snark(SnarkReq {
                    receipt: TASK_ID.to_string(),
                    compress_type: CompressType::Groth16,
                }),
                max_retries: 2,
                timeout_secs: 240,
                user_id: "grpc".to_string(),
            }),
        }
    );
}

#[test]
fn groth16_receipt_is_written_only_when_sent_and_absent() {
    let with = Groth16TaskDetails { source_task_id: String::new(), stark_receipt_data: vec![1] };
    let without = Groth16TaskDetails { source_task_id: String::new(), stark_receipt_data: vec![] };
    let mut stored = facts();
    stored.receipt_stored = true;
    assert_eq!(plan_groth16_task(TASK_ID, &with, &stored, &remote_args()).writes, vec![]);
    assert_eq!(plan_groth16_task(TASK_ID, &without, &facts(), &remote_args()).writes, vec![]);
    assert!(plan_groth16_task(TASK_ID, &without, &facts(), &remote_args()).outcome.is_ok());
}

#[test]
fn groth16_assignment_with_bad_id_stores_nothing() {
    let d = Groth16TaskDetails { source_task_id: String::new(), stark_receipt_data: vec![1] };
    let plan = plan_groth16_task("test-groth16-task-1", &d, &facts(), &remote_args());
    assert_eq!(plan, IngestPlan { writes: vec![], outcome: Err(Rejection::InvalidTaskId) });
}

#[test]
fn assignment_is_planned_by_its_details() {
    let none = TaskAssignment { task_id: TASK_ID.to_string(), task_details: None };
    assert_eq!(
        plan_assignment(&none, &facts(), &remote_args()),
        IngestPlan { writes: vec![], outcome: Err(Rejection::DetailsMissing) }
    );
    let stark = TaskAssignment {
        task_id: TASK_ID.to_string(),
        task_details: Some(TaskDetails::StarkTask(details())),
    };
    assert_eq!(
        plan_assignment(&stark, &facts(), &remote_args()),
        plan_stark_task(TASK_ID, &details(), &facts(), &remote_args())
    );
    let g = Groth16TaskDetails { source_task_id: String::new(), stark_receipt_data: vec![1] };
    let groth16 = TaskAssignment {
        task_id: TASK_ID.to_string(),
        task_details: Some(TaskDetails::Groth16Task(g.clone())),
    };
    assert_eq!(
        plan_assignment(&groth16, &facts(), &remote_args()),
        plan_groth16_task(TASK_ID, &g, &facts(), &remote_args())
    );
}

#[test]
fn collected_facts_carry_what_was_found() {
    let found = IngestFacts::collect(Some("abc123".to_string()), true, false, true);
    assert_eq!(found.computed_image_id, Some("abc123".to_string()));
    assert!(found.elf_stored);
    assert!(!found.input_stored);
    assert!(found.receipt_stored);
    let mut d = details();
    d.input_data = Some(InputData { id: String::new(), data: vec![4, 5] });
    let plan = plan_stark_task(TASK_ID, &d, &found, &remote_args());
    let input = match plan.outcome.unwrap().task_def {
        TaskType::Executor(request) => request.input,
        other => panic!("the job starts with {other:?}"),
    };
    assert_eq!(plan.writes, vec![Artifact { key: format!("inputs/{input}"), bytes: vec![4, 5] }]);
    assert_eq!(input.len(), 36);
    assert_eq!(input.matches('-').count(), 4);
}

#[test]
fn every_rejection_says_why() {
    assert_eq!(Rejection::DetailsMissing.message(), "Task details not provided");
    assert_eq!(Rejection::ElfMissing.message(), "ELF data not provided");
    assert_eq!(Rejection::ImageIdUnavailable.message(), "Failed to compute image id from ELF data");
    assert_eq!(Rejection::ImageIdMismatch.message(), "ELF image_id mismatch");
    assert_eq!(Rejection::InputMissing.message(), "Input data not provided");
    assert_eq!(Rejection::InputEmpty.message(), "Input id and data are both empty");
    assert_eq!(
        Rejection::InputDataMissing.message(),
        "Input id provided but input data is empty"
    );
    assert_eq!(Rejection::InvalidTaskId.message(), "Failed to parse task_id as UUID");
}

fn stark_task(d: StarkTaskDetails) -> TaskAssignment {
    TaskAssignment { task_id: TASK_ID.to_string(), task_details: Some(TaskDetails::StarkTask(d)) }
}

fn groth16_task(task_id: &str, receipt: Vec<u8>) -> TaskAssignment {
    TaskAssignment {
        task_id: task_id.to_string(),
        task_details: Some(TaskDetails::Groth16Task(Groth16TaskDetails {
            source_task_id: String::new(),
            stark_receipt_data: receipt,
        })),
    }
}

const NO_LOOKUPS: Lookups = Lookups { elf_key: None, input_key: None, receipt_key: None };

#[test]
fn mismatch_names_the_declared_and_the_computed_id() {
    assert_eq!(
        image_mismatch_message("abc123", "abc124"),
        "ELF image_id mismatch: expected abc123, got abc124"
    );
    assert_eq!(image_mismatch_message("", ""), "ELF image_id mismatch: expected , got ");
}

#[test]
fn store_is_asked_for_program_and_input_once_the_image_id_matches() {
    assert_eq!(
        plan_lookups(&stark_task(details()), &Some("abc123".to_string())),
        Lookups {
            elf_key: Some("elfs/abc123".to_string()),
            input_key: Some("inputs/in-1".to_string()),
            receipt_key: None,
        }
    );
    assert_eq!(plan_lookups(&stark_task(details()), &Some("abc124".to_string())), NO_LOOKUPS);
    assert_eq!(plan_lookups(&stark_task(details()), &None), NO_LOOKUPS);
    let mut without_program = details();
    without_program.elf_data = vec![];
    assert_eq!(
        plan_lookups(&stark_task(without_program), &Some("abc123".to_string())),
        NO_LOOKUPS
    );
}

#[test]
fn store_is_not_asked_for_an_input_without_id() {
    let mut inline = details();
    inline.input_data = Some(InputData { id: String::new(), data: vec![1] });
    let mut none = details();
    none.input_data = None;
    for d in [inline, none] {
        assert_eq!(
            plan_lookups(&stark_task(d), &Some("abc123".to_string())),
            Lookups { elf_key: Some("elfs/abc123".to_string()), input_key: None, receipt_key: None }
        );
    }
}

#[test]
fn store_is_asked_for_a_receipt_only_under_a_valid_id() {
    assert_eq!(
        plan_lookups(&groth16_task(TASK_ID, vec![1]), &None),
        Lookups {
            elf_key: None,
            input_key: None,
            receipt_key: Some(format!("receipts/stark/{TASK_ID}.bincode")),
        }
    );
    assert_eq!(plan_lookups(&groth16_task("test-groth16-task-1", vec![1]), &None), NO_LOOKUPS);
    assert_eq!(plan_lookups(&groth16_task(TASK_ID, vec![]), &None), NO_LOOKUPS);
    let empty = TaskAssignment { task_id: TASK_ID.to_string(), task_details: None };
    assert_eq!(plan_lookups(&empty, &None), NO_LOOKUPS);
}
