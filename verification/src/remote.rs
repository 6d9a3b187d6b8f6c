//! Assignments pushed over the remote task channel, and their conversion
//! into jobs of the task queue.
//!
//! The conversion is a pure plan: given an assignment and what the caller
//! found out about the outside world, it names the artifacts to store and
//! either the job to create or the reason the assignment is rejected.

use vstd::prelude::*;
use vstd::string::StringExecFns;
use crate::agent::Args;
use crate::artifact::{
    artifacts_view, elf_key, input_key, make_elf_key, make_input_key, make_stark_receipt_key,
    stark_receipt_key, Artifact,
};
use crate::ident::{format_uuid, parse_uuid, random_uuid, uuid_parse, uuid_text};
use crate::work::{
    texts, CompressType, ExecutorReq, ExecutorReqView, SnarkReq, SnarkReqView, TaskType,
    TaskTypeView, WorkType,
};

verus! {

/// An input of a program: a reference to a stored object, inline bytes, or both.
#[derive(Clone, Debug, PartialEq, Eq)]
pub struct InputData {
    pub id: String,
    pub data: Vec<u8>,
}

/// A request to execute and prove a program.
#[derive(Clone, Debug, PartialEq, Eq)]
pub struct StarkTaskDetails {
    pub image_id: String,
    pub elf_data: Vec<u8>,
    pub input_data: Option<InputData>,
    pub exec_cycle_limit: u64,
    pub assumption_inputs: Vec<InputData>,
    pub execute_only: bool,
}

/// A request to wrap a finished receipt into a Groth16 proof.
#[derive(Clone, Debug, PartialEq, Eq)]
pub struct Groth16TaskDetails {
    pub source_task_id: String,
    pub stark_receipt_data: Vec<u8>,
}

/// What an assignment asks for.
#[derive(Clone, Debug, PartialEq, Eq)]
pub enum TaskDetails {
    StarkTask(StarkTaskDetails),
    Groth16Task(Groth16TaskDetails),
}

/// A unit of work pushed by the remote service.
#[derive(Clone, Debug, PartialEq, Eq)]
pub struct TaskAssignment {
    pub task_id: String,
    pub task_details: Option<TaskDetails>,
}

/// What the caller has found out before an assignment is planned.
#[derive(Clone, Debug, PartialEq, Eq)]
pub struct IngestFacts {
    /// The image id recomputed from the attached program, or `None` where it
    /// could not be computed.
    pub computed_image_id: Option<String>,
    /// Whether the store holds the program under the declared image id.
    pub elf_stored: bool,
    /// Whether the store holds an input under the id the assignment names.
    pub input_stored: bool,
    /// An unused identifier, for an input that arrives without one.
    pub fresh_input_id: u128,
    /// Whether the store holds the receipt that is to be wrapped.
    pub receipt_stored: bool,
}

/// Why an assignment is turned away. None of these is retried.
#[derive(Clone, Copy, Debug, PartialEq, Eq, Structural)]
pub enum Rejection {
    /// The assignment carries no details.
    DetailsMissing,
    /// No program is attached.
    ElfMissing,
    /// The image id of the attached program could not be computed.
    ImageIdUnavailable,
    /// The attached program does not have the declared image id.
    ImageIdMismatch,
    /// No input is given.
    InputMissing,
    /// The input has neither an id nor bytes.
    InputEmpty,
    /// The input names an object that is not stored and brings no bytes.
    InputDataMissing,
    /// The id of the assignment is not a UUID.
    InvalidTaskId,
}

/// What is said of a rejection.
pub open spec fn rejection_text(reason: Rejection) -> Seq<char> {
    match reason {
        Rejection::DetailsMissing => "Task details not provided"@,
        Rejection::ElfMissing => "ELF data not provided"@,
        Rejection::ImageIdUnavailable => "Failed to compute image id from ELF data"@,
        Rejection::ImageIdMismatch => "ELF image_id mismatch"@,
        Rejection::InputMissing => "Input data not provided"@,
        Rejection::InputEmpty => "Input id and data are both empty"@,
        Rejection::InputDataMissing => "Input id provided but input data is empty"@,
        Rejection::InvalidTaskId => "Failed to parse task_id as UUID"@,
    }
}

impl Rejection {
    /// What is said of the rejection.
    pub fn message(self) -> (text: &'static str)
        ensures
            text@ == rejection_text(self),
    {
        match self {
            Rejection::DetailsMissing => "Task details not provided",
            Rejection::ElfMissing => "ELF data not provided",
            Rejection::ImageIdUnavailable => "Failed to compute image id from ELF data",
            Rejection::ImageIdMismatch => "ELF image_id mismatch",
            Rejection::InputMissing => "Input data not provided",
            Rejection::InputEmpty => "Input id and data are both empty",
            Rejection::InputDataMissing => "Input id provided but input data is empty",
            Rejection::InvalidTaskId => "Failed to parse task_id as UUID",
        }
    }
}

/// What is said of a program that does not have the declared image id: the
/// id that was declared and the one that was computed.
pub open spec fn mismatch_text(declared: Seq<char>, computed: Seq<char>) -> Seq<char> {
    "ELF image_id mismatch: expected "@ + declared + ", got "@ + computed
}

/// Builds what is said of a program that does not have the declared image id.
pub fn image_mismatch_message(declared: &str, computed: &str) -> (text: String)
    ensures
        text@ == mismatch_text(declared@, computed@),
{
    String::from_str("ELF image_id mismatch: expected ").concat(declared).concat(", got ").concat(
        computed,
    )
}

/// The job that an accepted assignment becomes.
#[derive(Debug, PartialEq, Eq)]
pub struct JobSpec {
    pub job_id: u128,
    pub work_type: WorkType,
    pub task_def: TaskType,
    pub max_retries: i32,
    pub timeout_secs: i32,
    pub user_id: String,
}

/// The outcome of planning an assignment: the artifacts to store, each
/// unless already present, and then the job to create or the rejection.
#[derive(Debug, PartialEq, Eq)]
pub struct IngestPlan {
    pub writes: Vec<Artifact>,
    pub outcome: Result<JobSpec, Rejection>,
}

/// Mathematical content of a [`StarkTaskDetails`].
pub struct StarkTaskView {
    pub image_id: Seq<char>,
    pub elf_data: Seq<u8>,
    pub input_data: Option<(Seq<char>, Seq<u8>)>,
    pub exec_cycle_limit: u64,
    pub assumption_ids: Seq<Seq<char>>,
    pub execute_only: bool,
}

/// Mathematical content of a [`Groth16TaskDetails`].
pub struct Groth16TaskView {
    pub source_task_id: Seq<char>,
    pub stark_receipt_data: Seq<u8>,
}

/// Mathematical content of a [`TaskDetails`].
pub enum TaskDetailsView {
    StarkTask(StarkTaskView),
    Groth16Task(Groth16TaskView),
}

/// Mathematical content of an [`IngestFacts`].
pub struct IngestFactsView {
    pub computed_image_id: Option<Seq<char>>,
    pub elf_stored: bool,
    pub input_stored: bool,
    pub fresh_input_id: u128,
    pub receipt_stored: bool,
}

/// Mathematical content of a [`JobSpec`].
pub struct JobSpecView {
    pub job_id: u128,
    pub work_type: WorkType,
    pub task_def: TaskTypeView,
    pub max_retries: i32,
    pub timeout_secs: i32,
    pub user_id: Seq<char>,
}

/// Mathematical content of an [`IngestPlan`].
pub struct IngestPlanView {
    pub writes: Seq<(Seq<char>, Seq<u8>)>,
    pub outcome: Result<JobSpecView, Rejection>,
}

/// The ids of a list of inputs.
pub open spec fn input_ids(inputs: Seq<InputData>) -> Seq<Seq<char>> {
    Seq::new(inputs.len(), |i: int| inputs[i].id@)
}

impl View for StarkTaskDetails {
    type V = StarkTaskView;

    open spec fn view(&self) -> StarkTaskView {
        StarkTaskView {
            image_id: self.image_id@,
            elf_data: self.elf_data@,
            input_data: match self.input_data {
                Some(input) => Some((input.id@, input.data@)),
                None => None,
            },
            exec_cycle_limit: self.exec_cycle_limit,
            assumption_ids: input_ids(self.assumption_inputs@),
            execute_only: self.execute_only,
        }
    }
}

impl View for Groth16TaskDetails {
    type V = Groth16TaskView;

    open spec fn view(&self) -> Groth16TaskView {
        Groth16TaskView {
            source_task_id: self.source_task_id@,
            stark_receipt_data: self.stark_receipt_data@,
        }
    }
}

impl View for TaskDetails {
    type V = TaskDetailsView;

    open spec fn view(&self) -> TaskDetailsView {
        match *self {
            TaskDetails::StarkTask(d) => TaskDetailsView::StarkTask(d@),
            TaskDetails::Groth16Task(d) => TaskDetailsView::Groth16Task(d@),
        }
    }
}

impl View for IngestFacts {
    type V = IngestFactsView;

    open spec fn view(&self) -> IngestFactsView {
        IngestFactsView {
            computed_image_id: match self.computed_image_id {
                Some(id) => Some(id@),
                None => None,
            },
            elf_stored: self.elf_stored,
            input_stored: self.input_stored,
            fresh_input_id: self.fresh_input_id,
            receipt_stored: self.receipt_stored,
        }
    }
}

impl View for JobSpec {
    type V = JobSpecView;

    open spec fn view(&self) -> JobSpecView {
        JobSpecView {
            job_id: self.job_id,
            work_type: self.work_type,
            task_def: self.task_def@,
            max_retries: self.max_retries,
            timeout_secs: self.timeout_secs,
            user_id: self.user_id@,
        }
    }
}

impl View for IngestPlan {
    type V = IngestPlanView;

    open spec fn view(&self) -> IngestPlanView {
        IngestPlanView {
            writes: artifacts_view(self.writes@),
            outcome: match self.outcome {
                Ok(job) => Ok(job@),
                Err(r) => Err(r),
            },
        }
    }
}

/// The owner under which jobs of the remote channel are queued.
pub open spec fn remote_owner() -> Seq<char> {
    "grpc"@
}

/// The verdict on the attached program: it must be present and have the
/// declared image id.
pub open spec fn image_verdict(d: StarkTaskView, f: IngestFactsView) -> Option<Rejection> {
    if d.elf_data.len() == 0 {
        Some(Rejection::ElfMissing)
    } else {
        match f.computed_image_id {
            None => Some(Rejection::ImageIdUnavailable),
            Some(computed) => if computed != d.image_id {
                Some(Rejection::ImageIdMismatch)
            } else {
                None
            },
        }
    }
}

/// The program to store: none where the store holds it already.
pub open spec fn elf_writes(d: StarkTaskView, f: IngestFactsView) -> Seq<(Seq<char>, Seq<u8>)> {
    if f.elf_stored {
        Seq::empty()
    } else {
        seq![(elf_key(d.image_id), d.elf_data)]
    }
}

/// The id under which the executor finds its input, with the object to
/// store for it, or the reason the input is unusable.
///
/// An input without an id is stored under the fresh id. An input with an id
/// is reused where the store holds it, stored where it brings bytes, and
/// unusable otherwise.
pub open spec fn input_choice(d: StarkTaskView, f: IngestFactsView) -> Result<
    (Seq<char>, Seq<(Seq<char>, Seq<u8>)>),
    Rejection,
> {
    match d.input_data {
        None => Err(Rejection::InputMissing),
        Some((id, data)) => if id.len() == 0 {
            if data.len() == 0 {
                Err(Rejection::InputEmpty)
            } else {
                Ok(
                    (
                        uuid_text(f.fresh_input_id),
                        seq![(input_key(uuid_text(f.fresh_input_id)), data)],
                    ),
                )
            }
        } else if f.input_stored {
            Ok((id, Seq::empty()))
        } else if data.len() > 0 {
            Ok((id, seq![(input_key(id), data)]))
        } else {
            Err(Rejection::InputDataMissing)
        },
    }
}

/// The larger of the cycle limit an assignment asks for and the agent's own.
pub open spec fn cycle_limit(requested: u64, configured: u64) -> u64 {
    if requested >= configured {
        requested
    } else {
        configured
    }
}

/// The plan for a request to execute and prove a program.
///
/// The checks are made in order: the program, the input, the id of the
/// assignment. What is stored before a check fails stays in the plan; no job
/// is created unless every check passes.
pub open spec fn stark_plan(
    task_id: Seq<char>,
    d: StarkTaskView,
    f: IngestFactsView,
    exec_cycle_limit: u64,
    exec_retries: i32,
    exec_timeout: i32,
) -> IngestPlanView {
    match image_verdict(d, f) {
        Some(r) => IngestPlanView { writes: Seq::empty(), outcome: Err(r) },
        None => match input_choice(d, f) {
            Err(r) => IngestPlanView { writes: elf_writes(d, f), outcome: Err(r) },
            Ok((input_id, input_writes)) => {
                let writes = elf_writes(d, f) + input_writes;
                match uuid_parse(task_id) {
                    None => IngestPlanView { writes, outcome: Err(Rejection::InvalidTaskId) },
                    Some(job_id) => IngestPlanView {
                        writes,
                        outcome: Ok(
                            JobSpecView {
                                job_id,
                                work_type: WorkType::Exec,
                                task_def: TaskTypeView::Executor(
                                    ExecutorReqView {
                                        image: d.image_id,
                                        input: input_id,
                                        user_id: remote_owner(),
                                        assumptions: d.assumption_ids,
                                        execute_only: d.execute_only,
                                        compress: CompressType::Plain,
                                        exec_limit: Some(
                                            cycle_limit(d.exec_cycle_limit, exec_cycle_limit),
                                        ),
                                    },
                                ),
                                max_retries: exec_retries,
                                timeout_secs: exec_timeout,
                                user_id: remote_owner(),
                            },
                        ),
                    },
                }
            },
        },
    }
}

/// The plan for a request to wrap a receipt into a Groth16 proof.
///
/// The id of the assignment is checked first. A receipt that comes with the
/// assignment is stored under that id unless the store holds it already.
pub open spec fn groth16_plan(
    task_id: Seq<char>,
    d: Groth16TaskView,
    f: IngestFactsView,
    snark_retries: i32,
    snark_timeout: i32,
) -> IngestPlanView {
    match uuid_parse(task_id) {
        None => IngestPlanView { writes: Seq::empty(), outcome: Err(Rejection::InvalidTaskId) },
        Some(job_id) => IngestPlanView {
            writes: if d.stark_receipt_data.len() > 0 && !f.receipt_stored {
                seq![(stark_receipt_key(task_id), d.stark_receipt_data)]
            } else {
                Seq::empty()
            },
            outcome: Ok(
                JobSpecView {
                    job_id,
                    work_type: WorkType::Snark,
                    task_def: TaskTypeView::Snark(
                        SnarkReqView { receipt: task_id, compress_type: CompressType::Groth16 },
                    ),
                    max_retries: snark_retries,
                    timeout_secs: snark_timeout,
                    user_id: remote_owner(),
                },
            ),
        },
    }
}

/// The plan for an assignment, by what it asks for.
pub open spec fn assignment_plan(
    task_id: Seq<char>,
    details: Option<TaskDetailsView>,
    f: IngestFactsView,
    args: Args,
) -> IngestPlanView {
    match details {
        None => IngestPlanView { writes: Seq::empty(), outcome: Err(Rejection::DetailsMissing) },
        Some(TaskDetailsView::StarkTask(d)) => stark_plan(
            task_id,
            d,
            f,
            args.exec_cycle_limit,
            args.exec_retries,
            args.exec_timeout,
        ),
        Some(TaskDetailsView::Groth16Task(d)) => groth16_plan(
            task_id,
            d,
            f,
            args.snark_retries,
            args.snark_timeout,
        ),
    }
}

impl IngestFacts {
    /// Puts together what the caller found out about an assignment and
    /// draws the identifier for an input that arrives without one. The
    /// identifier is random: nothing is said of it.
    pub fn collect(
        computed_image_id: Option<String>,
        elf_stored: bool,
        input_stored: bool,
        receipt_stored: bool,
    ) -> (facts: IngestFacts)
        ensures
            facts.computed_image_id == computed_image_id,
            facts.elf_stored == elf_stored,
            facts.input_stored == input_stored,
            facts.receipt_stored == receipt_stored,
    {
        IngestFacts {
            computed_image_id,
            elf_stored,
            input_stored,
            fresh_input_id: random_uuid(),
            receipt_stored,
        }
    }
}

/// The keys under which the store is asked for an assignment before the
/// assignment is planned.
#[derive(Clone, Debug, PartialEq, Eq)]
pub struct Lookups {
    /// The key of the attached program.
    pub elf_key: Option<String>,
    /// The key of the input the assignment names.
    pub input_key: Option<String>,
    /// The key of the receipt that is to be wrapped.
    pub receipt_key: Option<String>,
}

/// Mathematical content of a [`Lookups`].
pub struct LookupsView {
    pub elf_key: Option<Seq<char>>,
    pub input_key: Option<Seq<char>>,
    pub receipt_key: Option<Seq<char>>,
}

/// The text of a key that may be absent.
pub open spec fn key_text(key: Option<String>) -> Option<Seq<char>> {
    match key {
        Some(k) => Some(k@),
        None => None,
    }
}

impl View for Lookups {
    type V = LookupsView;

    open spec fn view(&self) -> LookupsView {
        LookupsView {
            elf_key: key_text(self.elf_key),
            input_key: key_text(self.input_key),
            receipt_key: key_text(self.receipt_key),
        }
    }
}

/// Whether a program is attached and has the declared image id.
pub open spec fn image_matches(d: StarkTaskView, computed_image_id: Option<Seq<char>>) -> bool {
    d.elf_data.len() > 0 && computed_image_id == Some(d.image_id)
}

/// The keys under which the store is asked for an assignment. The store is
/// asked only for what the plan goes by: for the program once it is known
/// to have the declared image id, for a named input after that, and for the
/// receipt of a wrapping assignment that brings one, once the id of the
/// assignment is known to be valid.
pub open spec fn lookups_of(
    task_id: Seq<char>,
    details: Option<TaskDetailsView>,
    computed_image_id: Option<Seq<char>>,
) -> LookupsView {
    match details {
        Some(TaskDetailsView::StarkTask(d)) => LookupsView {
            elf_key: if image_matches(d, computed_image_id) {
                Some(elf_key(d.image_id))
            } else {
                None
            },
            input_key: match d.input_data {
                Some((id, data)) => if image_matches(d, computed_image_id) && id.len() > 0 {
                    Some(input_key(id))
                } else {
                    None
                },
                None => None,
            },
            receipt_key: None,
        },
        Some(TaskDetailsView::Groth16Task(d)) => LookupsView {
            elf_key: None,
            input_key: None,
            receipt_key: if uuid_parse(task_id).is_some() && d.stark_receipt_data.len() > 0 {
                Some(stark_receipt_key(task_id))
            } else {
                None
            },
        },
        None => LookupsView { elf_key: None, input_key: None, receipt_key: None },
    }
}

/// Says under which keys the store is to be asked before an assignment is
/// planned. `computed_image_id` is the image id of the attached program,
/// where one is attached and its id could be computed.
pub fn plan_lookups(task: &TaskAssignment, computed_image_id: &Option<String>) -> (lookups: Lookups)
    ensures
        lookups@ == lookups_of(
            task.task_id@,
            details_view(task.task_details),
            key_text(*computed_image_id),
        ),
{
    match &task.task_details {
        Some(TaskDetails::StarkTask(d)) => {
            let matches = d.elf_data.len() > 0 && match computed_image_id {
                Some(c) => *c == d.image_id,
                None => false,
            };
            let elf_key = if matches {
                Some(make_elf_key(d.image_id.as_str()))
            } else {
                None
            };
            let input_key = match &d.input_data {
                Some(input) => {
                    if matches && !input.id.as_str().is_empty() {
                        Some(make_input_key(input.id.as_str()))
                    } else {
                        None
                    }
                },
                None => None,
            };
            Lookups { elf_key, input_key, receipt_key: None }
        },
        Some(TaskDetails::Groth16Task(d)) => {
            let receipt_key = if parse_uuid(task.task_id.as_str()).is_some()
                && d.stark_receipt_data.len() > 0 {
                Some(make_stark_receipt_key(task.task_id.as_str()))
            } else {
                None
            };
            Lookups { elf_key: None, input_key: None, receipt_key }
        },
        None => Lookups { elf_key: None, input_key: None, receipt_key: None },
    }
}

/// What the store was not asked does not matter: two sets of facts that
/// agree on what was computed, on the fresh identifier and on the answer
/// for every key the store is asked for give the same plan.
pub proof fn lemma_unasked_facts_are_unused(
    task_id: Seq<char>,
    details: Option<TaskDetailsView>,
    f: IngestFactsView,
    g: IngestFactsView,
    args: Args,
)
    requires
        f.computed_image_id == g.computed_image_id,
        f.fresh_input_id == g.fresh_input_id,
        lookups_of(task_id, details, f.computed_image_id).elf_key.is_some() ==> f.elf_stored
            == g.elf_stored,
        lookups_of(task_id, details, f.computed_image_id).input_key.is_some() ==> f.input_stored
            == g.input_stored,
        lookups_of(task_id, details, f.computed_image_id).receipt_key.is_some()
            ==> f.receipt_stored == g.receipt_stored,
    ensures
        assignment_plan(task_id, details, f, args) == assignment_plan(task_id, details, g, args),
{
}

fn collect_ids(inputs: &Vec<InputData>) -> (ids: Vec<String>)
    ensures
        texts(ids@) == input_ids(inputs@),
{
    let mut ids: Vec<String> = Vec::new();
    let mut i: usize = 0;
    while i < inputs.len()
        invariant
            i <= inputs@.len(),
            ids@.len() == i,
            forall|j: int| 0 <= j < i ==> ids@[j]@ == inputs@[j].id@,
        decreases inputs@.len() - i,
    {
        ids.push(inputs[i].id.clone());
        i += 1;
    }
    ids
}

fn rejected(writes: Vec<Artifact>, reason: Rejection) -> (plan: IngestPlan)
    ensures
        plan@ == (IngestPlanView { writes: artifacts_view(writes@), outcome: Err(reason) }),
{
    IngestPlan { writes, outcome: Err(reason) }
}

/// Plans a request to execute and prove a program.
pub fn plan_stark_task(
    task_id: &str,
    details: &StarkTaskDetails,
    facts: &IngestFacts,
    args: &Args,
) -> (plan: IngestPlan)
    ensures
        plan@ == stark_plan(
            task_id@,
            details@,
            facts@,
            args.exec_cycle_limit,
            args.exec_retries,
            args.exec_timeout,
        ),
{
    let mut writes: Vec<Artifact> = Vec::new();
    assert(artifacts_view(writes@) =~= Seq::empty());
    if details.elf_data.len() == 0 {
        return rejected(writes, Rejection::ElfMissing);
    }
    match &facts.computed_image_id {
        None => {
            return rejected(writes, Rejection::ImageIdUnavailable);
        },
        Some(computed) => {
            if !(*computed == details.image_id) {
                return rejected(writes, Rejection::ImageIdMismatch);
            }
        },
    }
    if !facts.elf_stored {
        writes.push(
            Artifact {
                key: make_elf_key(details.image_id.as_str()),
                bytes: details.elf_data.clone(),
            },
        );
    }
    assert(artifacts_view(writes@) =~= elf_writes(details@, facts@));
    let input_id: String = match &details.input_data {
        None => {
            return rejected(writes, Rejection::InputMissing);
        },
        Some(input) => {
            if input.id.as_str().is_empty() {
                if input.data.len() == 0 {
                    return rejected(writes, Rejection::InputEmpty);
                }
                let new_id = format_uuid(facts.fresh_input_id);
                writes.push(
                    Artifact { key: make_input_key(new_id.as_str()), bytes: input.data.clone() },
                );
                new_id
            } else {
                if facts.input_stored {
                } else if input.data.len() > 0 {
                    writes.push(
                        Artifact {
                            key: make_input_key(input.id.as_str()),
                            bytes: input.data.clone(),
                        },
                    );
                } else {
                    return rejected(writes, Rejection::InputDataMissing);
                }
                input.id.clone()
            }
        },
    };
    assert(artifacts_view(writes@) =~= elf_writes(details@, facts@) + input_choice(
        details@,
        facts@,
    )->Ok_0.1);
    let exec_limit = if details.exec_cycle_limit >= args.exec_cycle_limit {
        details.exec_cycle_limit
    } else {
        args.exec_cycle_limit
    };
    let request = ExecutorReq {
        image: details.image_id.clone(),
        input: input_id,
        user_id: String::from_str("grpc"),
        assumptions: collect_ids(&details.assumption_inputs),
        execute_only: details.execute_only,
        compress: CompressType::Plain,
        exec_limit: Some(exec_limit),
    };
    match parse_uuid(task_id) {
        None => rejected(writes, Rejection::InvalidTaskId),
        Some(job_id) => IngestPlan {
            writes,
            outcome: Ok(
                JobSpec {
                    job_id,
                    work_type: WorkType::Exec,
                    task_def: TaskType::Executor(request),
                    max_retries: args.exec_retries,
                    timeout_secs: args.exec_timeout,
                    user_id: String::from_str("grpc"),
                },
            ),
        },
    }
}

/// Plans a request to wrap a receipt into a Groth16 proof.
pub fn plan_groth16_task(
    task_id: &str,
    details: &Groth16TaskDetails,
    facts: &IngestFacts,
    args: &Args,
) -> (plan: IngestPlan)
    ensures
        plan@ == groth16_plan(task_id@, details@, facts@, args.snark_retries, args.snark_timeout),
{
    let mut writes: Vec<Artifact> = Vec::new();
    assert(artifacts_view(writes@) =~= Seq::empty());
    match parse_uuid(task_id) {
        None => rejected(writes, Rejection::InvalidTaskId),
        Some(job_id) => {
            if details.stark_receipt_data.len() > 0 && !facts.receipt_stored {
                writes.push(
                    Artifact {
                        key: make_stark_receipt_key(task_id),
                        bytes: details.stark_receipt_data.clone(),
                    },
                );
                assert(artifacts_view(writes@) =~= seq![
                    (stark_receipt_key(task_id@), details@.stark_receipt_data),
                ]);
            }
            let request = SnarkReq {
                receipt: String::from_str(task_id),
                compress_type: CompressType::Groth16,
            };
            IngestPlan {
                writes,
                outcome: Ok(
                    JobSpec {
                        job_id,
                        work_type: WorkType::Snark,
                        task_def: TaskType::Snark(request),
                        max_retries: args.snark_retries,
                        timeout_secs: args.snark_timeout,
                        user_id: String::from_str("grpc"),
                    },
                ),
            }
        },
    }
}

/// The view of what an assignment asks for.
pub open spec fn details_view(details: Option<TaskDetails>) -> Option<TaskDetailsView> {
    match details {
        Some(d) => Some(d@),
        None => None,
    }
}

/// Plans an assignment: which artifacts to store, and which job to create
/// or why the assignment is rejected.
pub fn plan_assignment(task: &TaskAssignment, facts: &IngestFacts, args: &Args) -> (plan:
    IngestPlan)
    ensures
        plan@ == assignment_plan(task.task_id@, details_view(task.task_details), facts@, *args),
{
    match &task.task_details {
        Some(TaskDetails::StarkTask(details)) => plan_stark_task(
            task.task_id.as_str(),
            details,
            facts,
            args,
        ),
        Some(TaskDetails::Groth16Task(details)) => plan_groth16_task(
            task.task_id.as_str(),
            details,
            facts,
            args,
        ),
        None => {
            let writes: Vec<Artifact> = Vec::new();
            assert(artifacts_view(writes@) =~= Seq::empty());
            rejected(writes, Rejection::DetailsMissing)
        },
    }
}

} // verus!
