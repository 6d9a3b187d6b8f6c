//! From a finished task to the tasks that follow it.
//!
//! The executor is followed by one proving task per segment. A receipt that
//! is not the root is followed by the join that merges it with its partner,
//! once the partner is there too. The root is followed by the resolve stage,
//! that by the finalize stage, and that, where a wrapped proof was asked for,
//! by the wrapping stage.

use vstd::prelude::*;
use crate::ident::{format_uuid, uuid_text};
use crate::planner::{join_of, join_step, partner_of, root_receipt};
use crate::work::{
    CompressType, FinalizeReq, JoinReq, ProveReq, ResolveReq, SnarkReq, SnarkReqView, TaskType,
    TaskTypeView,
};

verus! {

/// The largest number of segments the tasks of a job are planned for.
pub const MAX_SEGMENTS: u64 = 0xffff_ffff;

/// What is known of a job when one of its tasks is done.
#[derive(Clone, Copy, Debug, PartialEq, Eq, Structural)]
pub struct JobFacts {
    /// The number of segments the executor found.
    pub segments: u64,
    /// Whether the receipt that is merged with the finished one is there.
    pub partner_done: bool,
    /// Whether the job ends with a wrapped proof.
    pub wrap: bool,
    /// Whether the job ends with the execution.
    pub execute_only: bool,
}

/// A task to be created.
#[derive(Debug, PartialEq, Eq)]
pub struct PlannedTask {
    pub task_id: u64,
    pub task_def: TaskType,
    pub prerequisites: Vec<u64>,
}

/// Mathematical content of a [`PlannedTask`].
pub struct PlannedTaskView {
    pub task_id: u64,
    pub task_def: TaskTypeView,
    pub prerequisites: Seq<u64>,
}

impl View for PlannedTask {
    type V = PlannedTaskView;

    open spec fn view(&self) -> PlannedTaskView {
        PlannedTaskView {
            task_id: self.task_id,
            task_def: self.task_def@,
            prerequisites: self.prerequisites@,
        }
    }
}

/// The contents of a list of planned tasks.
pub open spec fn planned_view(v: Seq<PlannedTask>) -> Seq<PlannedTaskView> {
    Seq::new(v.len(), |i: int| v[i]@)
}

/// The id of the task that produces receipt `j`.
pub open spec fn receipt_task(j: nat) -> nat {
    j + 1
}

/// The id of the resolve task of a job with `n` segments.
pub open spec fn resolve_task(n: nat) -> nat {
    2 * n
}

/// The id of the finalize task of a job with `n` segments.
pub open spec fn finalize_task(n: nat) -> nat {
    2 * n + 1
}

/// The id of the wrapping task of a job with `n` segments.
pub open spec fn snark_task(n: nat) -> nat {
    2 * n + 2
}

/// The proving task of segment `i`, which waits for the task `parent`.
pub open spec fn prove_task(i: nat, parent: u64) -> PlannedTaskView {
    PlannedTaskView {
        task_id: receipt_task(i) as u64,
        task_def: TaskTypeView::Prove(ProveReq { index: i as u64 }),
        prerequisites: seq![parent],
    }
}

/// What follows the executor: one proving task per segment, unless the job
/// ends with the execution.
pub open spec fn after_executor(parent: u64, facts: JobFacts) -> Seq<PlannedTaskView> {
    if facts.execute_only || facts.segments > MAX_SEGMENTS {
        Seq::empty()
    } else {
        Seq::new(facts.segments as nat, |i: int| prove_task(i as nat, parent))
    }
}

/// What follows receipt `j`: the resolve stage after the root, the join
/// with its partner after any other receipt whose partner is there.
pub open spec fn after_receipt(j: u64, facts: JobFacts) -> Seq<PlannedTaskView> {
    let n = facts.segments as nat;
    if n == 0 || facts.segments > MAX_SEGMENTS || j > root_receipt(n) {
        Seq::empty()
    } else if j == root_receipt(n) {
        seq![
            PlannedTaskView {
                task_id: resolve_task(n) as u64,
                task_def: TaskTypeView::Resolve(ResolveReq { max_idx: j }),
                prerequisites: seq![receipt_task(j as nat) as u64],
            },
        ]
    } else if facts.partner_done {
        let join = join_step(n, (j / 2) as nat);
        seq![
            PlannedTaskView {
                task_id: receipt_task(join.idx as nat) as u64,
                task_def: TaskTypeView::Join(join),
                prerequisites: seq![
                    receipt_task(join.left as nat) as u64,
                    receipt_task(join.right as nat) as u64,
                ],
            },
        ]
    } else {
        Seq::empty()
    }
}

/// What follows the resolve stage: the finalize stage.
pub open spec fn after_resolve(parent: u64, max_idx: u64, facts: JobFacts) -> Seq<PlannedTaskView> {
    if facts.segments == 0 || facts.segments > MAX_SEGMENTS {
        Seq::empty()
    } else {
        seq![
            PlannedTaskView {
                task_id: finalize_task(facts.segments as nat) as u64,
                task_def: TaskTypeView::Finalize(FinalizeReq { max_idx }),
                prerequisites: seq![parent],
            },
        ]
    }
}

/// What follows the finalize stage: the wrapping stage, where the job ends
/// with a wrapped proof.
pub open spec fn after_finalize(parent: u64, job_id: u128, facts: JobFacts) -> Seq<PlannedTaskView> {
    if !facts.wrap || facts.segments == 0 || facts.segments > MAX_SEGMENTS {
        Seq::empty()
    } else {
        seq![
            PlannedTaskView {
                task_id: snark_task(facts.segments as nat) as u64,
                task_def: TaskTypeView::Snark(
                    SnarkReqView {
                        receipt: uuid_text(job_id),
                        compress_type: CompressType::Groth16,
                    },
                ),
                prerequisites: seq![parent],
            },
        ]
    }
}

/// The tasks that follow the task `parent` of job `job_id`, which had the
/// definition `done`.
pub open spec fn successors(done: TaskTypeView, parent: u64, job_id: u128, facts: JobFacts) -> Seq<
    PlannedTaskView,
> {
    match done {
        TaskTypeView::Executor(_) => after_executor(parent, facts),
        TaskTypeView::Prove(r) => after_receipt(r.index, facts),
        TaskTypeView::Join(r) => after_receipt(r.idx, facts),
        TaskTypeView::Resolve(r) => after_resolve(parent, r.max_idx, facts),
        TaskTypeView::Finalize(_) => after_finalize(parent, job_id, facts),
        TaskTypeView::Snark(_) => Seq::empty(),
        TaskTypeView::Keccak(_) => Seq::empty(),
        TaskTypeView::Union(_) => Seq::empty(),
    }
}

fn single(task: PlannedTask) -> (v: Vec<PlannedTask>)
    ensures
        planned_view(v@) == seq![task@],
{
    let mut v: Vec<PlannedTask> = Vec::new();
    v.push(task);
    v
}

fn nothing() -> (v: Vec<PlannedTask>)
    ensures
        planned_view(v@) == Seq::<PlannedTaskView>::empty(),
{
    let v: Vec<PlannedTask> = Vec::new();
    v
}

fn one_id(id: u64) -> (v: Vec<u64>)
    ensures
        v@ == seq![id],
{
    let mut v: Vec<u64> = Vec::new();
    v.push(id);
    v
}

fn plan_after_executor(parent: u64, facts: JobFacts) -> (v: Vec<PlannedTask>)
    ensures
        planned_view(v@) == after_executor(parent, facts),
{
    if facts.execute_only || facts.segments > MAX_SEGMENTS {
        return nothing();
    }
    let mut v: Vec<PlannedTask> = Vec::new();
    let mut i: u64 = 0;
    while i < facts.segments
        invariant
            i <= facts.segments <= MAX_SEGMENTS,
            v@.len() == i,
            forall|k: int| 0 <= k < i ==> (#[trigger] v@[k])@ == prove_task(k as nat, parent),
        decreases facts.segments - i,
    {
        v.push(
            PlannedTask {
                task_id: i + 1,
                task_def: TaskType::Prove(ProveReq { index: i }),
                prerequisites: one_id(parent),
            },
        );
        i += 1;
    }
    v
}

fn plan_after_receipt(j: u64, facts: JobFacts) -> (v: Vec<PlannedTask>)
    ensures
        planned_view(v@) == after_receipt(j, facts),
{
    let n = facts.segments;
    if n == 0 || n > MAX_SEGMENTS || j > 2 * n - 2 {
        return nothing();
    }
    if j == 2 * n - 2 {
        return single(
            PlannedTask {
                task_id: 2 * n,
                task_def: TaskType::Resolve(ResolveReq { max_idx: j }),
                prerequisites: one_id(j + 1),
            },
        );
    }
    if !facts.partner_done {
        return nothing();
    }
    let k: u64 = j / 2;
    let join = JoinReq { idx: n + k, left: 2 * k, right: 2 * k + 1 };
    let mut prerequisites: Vec<u64> = Vec::new();
    prerequisites.push(join.left + 1);
    prerequisites.push(join.right + 1);
    assert(prerequisites@ =~= seq![
        receipt_task(join.left as nat) as u64,
        receipt_task(join.right as nat) as u64,
    ]);
    single(PlannedTask { task_id: join.idx + 1, task_def: TaskType::Join(join), prerequisites })
}

/// Plans the tasks that follow the task `parent` of job `job_id`, which had
/// the definition `done`.
pub fn plan_successors(done: &TaskType, parent: u64, job_id: u128, facts: JobFacts) -> (v: Vec<
    PlannedTask,
>)
    ensures
        planned_view(v@) == successors(done@, parent, job_id, facts),
{
    match done {
        TaskType::Executor(_) => plan_after_executor(parent, facts),
        TaskType::Prove(r) => plan_after_receipt(r.index, facts),
        TaskType::Join(r) => plan_after_receipt(r.idx, facts),
        TaskType::Resolve(r) => {
            if facts.segments == 0 || facts.segments > MAX_SEGMENTS {
                nothing()
            } else {
                single(
                    PlannedTask {
                        task_id: 2 * facts.segments + 1,
                        task_def: TaskType::Finalize(FinalizeReq { max_idx: r.max_idx }),
                        prerequisites: one_id(parent),
                    },
                )
            }
        },
        TaskType::Finalize(_) => {
            if !facts.wrap || facts.segments == 0 || facts.segments > MAX_SEGMENTS {
                nothing()
            } else {
                single(
                    PlannedTask {
                        task_id: 2 * facts.segments + 2,
                        task_def: TaskType::Snark(
                            SnarkReq {
                                receipt: format_uuid(job_id),
                                compress_type: CompressType::Groth16,
                            },
                        ),
                        prerequisites: one_id(parent),
                    },
                )
            }
        },
        TaskType::Snark(_) => nothing(),
        TaskType::Keccak(_) => nothing(),
        TaskType::Union(_) => nothing(),
    }
}

/// The executor of a job with `n` segments is followed by exactly `n`
/// proving tasks, one per segment, and each waits for the executor alone.
pub proof fn lemma_one_prove_task_per_segment(parent: u64, facts: JobFacts)
    requires
        !facts.execute_only,
        facts.segments <= MAX_SEGMENTS,
    ensures
        after_executor(parent, facts).len() == facts.segments,
        forall|i: int|
            0 <= i < facts.segments ==> {
                let t = #[trigger] after_executor(parent, facts)[i];
                &&& t.task_def == TaskTypeView::Prove(ProveReq { index: i as u64 })
                &&& t.prerequisites == seq![parent]
            },
{
}

/// A join that follows a receipt is the join of the reduction plan that
/// takes the receipt, and it waits for the two tasks whose receipts it
/// merges: the finished one and its partner.
pub proof fn lemma_join_follows_plan(j: u64, facts: JobFacts)
    requires
        1 <= facts.segments <= MAX_SEGMENTS,
        j < root_receipt(facts.segments as nat),
        facts.partner_done,
    ensures
        after_receipt(j, facts).len() == 1,
        Some(after_receipt(j, facts)[0].task_def) == match join_of(
            facts.segments as nat,
            j as nat,
        ) {
            Some(join) => Some(TaskTypeView::Join(join)),
            None => None,
        },
        after_receipt(j, facts)[0].prerequisites.contains(receipt_task(j as nat) as u64),
        after_receipt(j, facts)[0].prerequisites.contains(
            receipt_task(partner_of(j as nat)) as u64,
        ),
{
}

} // verus!
