//! The reduction of segment receipts to a single receipt.
//!
//! The receipts of a job are numbered. The segments give the receipts
//! `0..n`. Each join merges the two oldest receipts that are not merged yet
//! and gives the next number to its output, so join `k` merges receipts `2k`
//! and `2k + 1` into receipt `n + k`. With an odd number left on a level,
//! the last receipt is carried over and merged with the first output of the
//! next level.

use vstd::prelude::*;
use crate::work::JoinReq;

verus! {

/// The `k`-th join of a job with `n` segments.
pub open spec fn join_step(n: nat, k: nat) -> JoinReq {
    JoinReq { idx: (n + k) as u64, left: (2 * k) as u64, right: (2 * k + 1) as u64 }
}

/// The number of joins of a job with `n` segments.
pub open spec fn join_count(n: nat) -> nat {
    if n == 0 {
        0
    } else {
        (n - 1) as nat
    }
}

/// All joins of a job with `n` segments, in the order of their outputs.
pub open spec fn join_plan(n: nat) -> Seq<JoinReq> {
    Seq::new(join_count(n), |k: int| join_step(n, k as nat))
}

/// The number of the receipt that stands for the whole job.
pub open spec fn root_receipt(n: nat) -> nat
    recommends
        n >= 1,
{
    (2 * n - 2) as nat
}

/// Whether a join takes receipt `j` as an input.
pub open spec fn takes(join: JoinReq, j: nat) -> bool {
    join.left == j || join.right == j
}

/// Whether two joins have no input in common.
pub open spec fn disjoint_inputs(a: JoinReq, b: JoinReq) -> bool {
    a.left != b.left && a.left != b.right && a.right != b.left && a.right != b.right
}

/// Whether some join of the plan takes receipt `j` as an input.
pub open spec fn is_merged(plan: Seq<JoinReq>, j: nat) -> bool {
    exists|k: int| 0 <= k < plan.len() && takes(#[trigger] plan[k], j)
}

/// The join that takes receipt `j` as an input, where there is one: every
/// receipt but the root has exactly one.
pub open spec fn join_of(n: nat, j: nat) -> Option<JoinReq> {
    if n >= 1 && j < root_receipt(n) {
        Some(join_step(n, j / 2))
    } else {
        None
    }
}

/// The receipt that is merged together with receipt `j`.
pub open spec fn partner_of(j: nat) -> nat {
    if j % 2 == 0 {
        j + 1
    } else {
        (j - 1) as nat
    }
}

/// Join reduction: `n` segments take exactly `n - 1` joins, whether or not
/// `n` is a power of two. Each join merges two receipts that exist before it:
/// segment receipts or outputs of earlier joins. Every receipt but the root
/// is an input of some join, no two joins share an input, and the root is
/// an input of none, so a single receipt is left at the end.
pub proof fn lemma_join_reduction(n: nat)
    requires
        1 <= n,
        2 * n <= u64::MAX,
    ensures
        join_plan(n).len() == n - 1,
        forall|k: int|
            0 <= k < n - 1 ==> {
                let j = #[trigger] join_plan(n)[k];
                &&& j.idx == n + k
                &&& j.left < j.right < j.idx
                &&& j.left == 2 * k
                &&& j.right == 2 * k + 1
            },
        forall|j: nat| j < root_receipt(n) ==> #[trigger] is_merged(join_plan(n), j),
        !is_merged(join_plan(n), root_receipt(n)),
        forall|k1: int, k2: int|
            0 <= k1 < k2 < n - 1 ==> disjoint_inputs(
                #[trigger] join_plan(n)[k1],
                #[trigger] join_plan(n)[k2],
            ),
        n >= 2 ==> join_plan(n).last().idx == root_receipt(n),
{
    let plan = join_plan(n);
    assert forall|j: nat| j < root_receipt(n) implies #[trigger] is_merged(plan, j) by {
        let k = (j / 2) as int;
        assert(takes(plan[k], j));
    }
}

/// Plans the joins of a job with `n` segments.
pub fn plan_joins(n: u32) -> (plan: Vec<JoinReq>)
    ensures
        plan@ == join_plan(n as nat),
{
    let mut plan: Vec<JoinReq> = Vec::new();
    if n == 0 {
        return plan;
    }
    let total: u64 = n as u64;
    let mut k: u64 = 0;
    while k < total - 1
        invariant
            total == n,
            1 <= total,
            k <= total - 1,
            plan@.len() == k,
            forall|i: int| 0 <= i < k ==> plan@[i] == join_step(n as nat, i as nat),
        decreases total - 1 - k,
    {
        plan.push(JoinReq { idx: total + k, left: 2 * k, right: 2 * k + 1 });
        k += 1;
    }
    plan
}

/// Finds the join that takes receipt `j` of a job with `n` segments.
pub fn find_join(n: u32, j: u64) -> (join: Option<JoinReq>)
    ensures
        join == join_of(n as nat, j as nat),
{
    let total: u64 = n as u64;
    if total >= 1 && j < 2 * total - 2 {
        let k: u64 = j / 2;
        Some(JoinReq { idx: total + k, left: 2 * k, right: 2 * k + 1 })
    } else {
        None
    }
}

/// Finds the receipt that is merged together with receipt `j`.
pub fn find_partner(j: u64) -> (partner: u64)
    requires
        j < u64::MAX,
    ensures
        partner == partner_of(j as nat),
{
    if j % 2 == 0 {
        j + 1
    } else {
        j - 1
    }
}

} // verus!
