//! The stages of a proving job, the request each stage takes, and the named
//! queue partitions the stages are scheduled on.

use vstd::prelude::*;

verus! {

/// The kind of work a task performs.
#[derive(Clone, Copy, Debug, PartialEq, Eq, Structural)]
pub enum Stage {
    Executor,
    Prove,
    Join,
    Resolve,
    Finalize,
    Snark,
    Keccak,
    Union,
}

/// A named partition of the task queue.
#[derive(Clone, Copy, Debug, PartialEq, Eq, Structural)]
pub enum WorkType {
    Aux,
    Exec,
    Prove,
    Coproc,
    Join,
    Snark,
}

/// How a finished proof is compressed.
#[derive(Clone, Copy, Debug, PartialEq, Eq, Structural)]
pub enum CompressType {
    /// The receipt is left as the proving stages produced it.
    Plain,
    /// The receipt is wrapped into a Groth16 proof.
    Groth16,
}

/// Request of the executor stage: run an image on an input.
#[derive(Clone, Debug, PartialEq, Eq)]
pub struct ExecutorReq {
    pub image: String,
    pub input: String,
    pub user_id: String,
    pub assumptions: Vec<String>,
    pub execute_only: bool,
    pub compress: CompressType,
    pub exec_limit: Option<u64>,
}

/// Result of the executor stage.
#[derive(Clone, Copy, Debug, PartialEq, Eq, Structural)]
pub struct ExecutorResp {
    pub segments: u64,
    pub user_cycles: u64,
    pub total_cycles: u64,
    pub assumption_count: u64,
}

/// Request to prove the segment with the given index.
#[derive(Clone, Copy, Debug, PartialEq, Eq, Structural)]
pub struct ProveReq {
    pub index: u64,
}

/// Request to merge receipts `left` and `right` into receipt `idx`.
#[derive(Clone, Copy, Debug, PartialEq, Eq, Structural)]
pub struct JoinReq {
    pub idx: u64,
    pub left: u64,
    pub right: u64,
}

/// Request to resolve the assumptions of the receipt `max_idx`.
#[derive(Clone, Copy, Debug, PartialEq, Eq, Structural)]
pub struct ResolveReq {
    pub max_idx: u64,
}

/// Request to produce the canonical receipt from receipt `max_idx`.
#[derive(Clone, Copy, Debug, PartialEq, Eq, Structural)]
pub struct FinalizeReq {
    pub max_idx: u64,
}

/// Request to wrap a finished receipt into a succinct proof.
#[derive(Clone, Debug, PartialEq, Eq)]
pub struct SnarkReq {
    pub receipt: String,
    pub compress_type: CompressType,
}

/// Request to prove one batch of the hashing coprocessor.
#[derive(Clone, Copy, Debug, PartialEq, Eq, Structural)]
pub struct KeccakReq {
    pub index: u64,
    pub po2: u32,
}

/// Request to merge coprocessor receipts `left` and `right` into `idx`.
#[derive(Clone, Copy, Debug, PartialEq, Eq, Structural)]
pub struct UnionReq {
    pub idx: u64,
    pub left: u64,
    pub right: u64,
}

/// A task definition: the stage together with its request.
#[derive(Clone, Debug, PartialEq, Eq)]
pub enum TaskType {
    Executor(ExecutorReq),
    Prove(ProveReq),
    Join(JoinReq),
    Resolve(ResolveReq),
    Finalize(FinalizeReq),
    Snark(SnarkReq),
    Keccak(KeccakReq),
    Union(UnionReq),
}

/// Mathematical content of an [`ExecutorReq`].
pub struct ExecutorReqView {
    pub image: Seq<char>,
    pub input: Seq<char>,
    pub user_id: Seq<char>,
    pub assumptions: Seq<Seq<char>>,
    pub execute_only: bool,
    pub compress: CompressType,
    pub exec_limit: Option<u64>,
}

/// Mathematical content of a [`SnarkReq`].
pub struct SnarkReqView {
    pub receipt: Seq<char>,
    pub compress_type: CompressType,
}

/// Mathematical content of a [`TaskType`].
pub enum TaskTypeView {
    Executor(ExecutorReqView),
    Prove(ProveReq),
    Join(JoinReq),
    Resolve(ResolveReq),
    Finalize(FinalizeReq),
    Snark(SnarkReqView),
    Keccak(KeccakReq),
    Union(UnionReq),
}

/// The texts of a list of strings.
pub open spec fn texts(v: Seq<String>) -> Seq<Seq<char>> {
    Seq::new(v.len(), |i: int| v[i]@)
}

impl View for ExecutorReq {
    type V = ExecutorReqView;

    open spec fn view(&self) -> ExecutorReqView {
        ExecutorReqView {
            image: self.image@,
            input: self.input@,
            user_id: self.user_id@,
            assumptions: texts(self.assumptions@),
            execute_only: self.execute_only,
            compress: self.compress,
            exec_limit: self.exec_limit,
        }
    }
}

impl View for SnarkReq {
    type V = SnarkReqView;

    open spec fn view(&self) -> SnarkReqView {
        SnarkReqView { receipt: self.receipt@, compress_type: self.compress_type }
    }
}

impl View for TaskType {
    type V = TaskTypeView;

    open spec fn view(&self) -> TaskTypeView {
        match *self {
            TaskType::Executor(r) => TaskTypeView::Executor(r@),
            TaskType::Prove(r) => TaskTypeView::Prove(r),
            TaskType::Join(r) => TaskTypeView::Join(r),
            TaskType::Resolve(r) => TaskTypeView::Resolve(r),
            TaskType::Finalize(r) => TaskTypeView::Finalize(r),
            TaskType::Snark(r) => TaskTypeView::Snark(r@),
            TaskType::Keccak(r) => TaskTypeView::Keccak(r),
            TaskType::Union(r) => TaskTypeView::Union(r),
        }
    }
}

impl TaskTypeView {
    /// The stage of a task definition.
    pub open spec fn stage(self) -> Stage {
        match self {
            TaskTypeView::Executor(_) => Stage::Executor,
            TaskTypeView::Prove(_) => Stage::Prove,
            TaskTypeView::Join(_) => Stage::Join,
            TaskTypeView::Resolve(_) => Stage::Resolve,
            TaskTypeView::Finalize(_) => Stage::Finalize,
            TaskTypeView::Snark(_) => Stage::Snark,
            TaskTypeView::Keccak(_) => Stage::Keccak,
            TaskTypeView::Union(_) => Stage::Union,
        }
    }
}

fn copy_texts(v: &Vec<String>) -> (r: Vec<String>)
    ensures
        texts(r@) == texts(v@),
{
    let mut r: Vec<String> = Vec::new();
    let mut i: usize = 0;
    while i < v.len()
        invariant
            i <= v@.len(),
            r@.len() == i,
            forall|j: int| 0 <= j < i ==> r@[j]@ == v@[j]@,
        decreases v@.len() - i,
    {
        r.push(v[i].clone());
        i += 1;
    }
    r
}

impl ExecutorReq {
    /// A copy with the same content.
    pub fn duplicate(&self) -> (copy: ExecutorReq)
        ensures
            copy@ == self@,
    {
        ExecutorReq {
            image: self.image.clone(),
            input: self.input.clone(),
            user_id: self.user_id.clone(),
            assumptions: copy_texts(&self.assumptions),
            execute_only: self.execute_only,
            compress: self.compress,
            exec_limit: self.exec_limit,
        }
    }
}

impl SnarkReq {
    /// A copy with the same content.
    pub fn duplicate(&self) -> (copy: SnarkReq)
        ensures
            copy@ == self@,
    {
        SnarkReq { receipt: self.receipt.clone(), compress_type: self.compress_type }
    }
}

impl TaskType {
    /// A copy with the same content.
    pub fn duplicate(&self) -> (copy: TaskType)
        ensures
            copy@ == self@,
    {
        match self {
            TaskType::Executor(r) => TaskType::Executor(r.duplicate()),
            TaskType::Prove(r) => TaskType::Prove(*r),
            TaskType::Join(r) => TaskType::Join(*r),
            TaskType::Resolve(r) => TaskType::Resolve(*r),
            TaskType::Finalize(r) => TaskType::Finalize(*r),
            TaskType::Snark(r) => TaskType::Snark(r.duplicate()),
            TaskType::Keccak(r) => TaskType::Keccak(*r),
            TaskType::Union(r) => TaskType::Union(*r),
        }
    }

    /// The stage this definition belongs to.
    pub fn stage(&self) -> (s: Stage)
        ensures
            s == self@.stage(),
    {
        match self {
            TaskType::Executor(_) => Stage::Executor,
            TaskType::Prove(_) => Stage::Prove,
            TaskType::Join(_) => Stage::Join,
            TaskType::Resolve(_) => Stage::Resolve,
            TaskType::Finalize(_) => Stage::Finalize,
            TaskType::Snark(_) => Stage::Snark,
            TaskType::Keccak(_) => Stage::Keccak,
            TaskType::Union(_) => Stage::Union,
        }
    }
}

impl Stage {
    /// The partition on which tasks of this stage are queued.
    pub open spec fn spec_work_type(self) -> WorkType {
        match self {
            Stage::Executor => WorkType::Exec,
            Stage::Prove => WorkType::Prove,
            Stage::Join => WorkType::Join,
            Stage::Resolve => WorkType::Join,
            Stage::Finalize => WorkType::Aux,
            Stage::Snark => WorkType::Snark,
            Stage::Keccak => WorkType::Coproc,
            Stage::Union => WorkType::Coproc,
        }
    }

    /// The partition on which tasks of this stage are queued.
    pub fn work_type(self) -> (w: WorkType)
        ensures
            w == self.spec_work_type(),
    {
        match self {
            Stage::Executor => WorkType::Exec,
            Stage::Prove => WorkType::Prove,
            Stage::Join => WorkType::Join,
            Stage::Resolve => WorkType::Join,
            Stage::Finalize => WorkType::Aux,
            Stage::Snark => WorkType::Snark,
            Stage::Keccak => WorkType::Coproc,
            Stage::Union => WorkType::Coproc,
        }
    }
}

} // verus!
