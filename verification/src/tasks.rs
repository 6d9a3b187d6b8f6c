//! Proof requests as the prover service records them.

use vstd::prelude::*;
use crate::lifecycle::TaskStatus;

verus! {

/// A request to prove a program, with its progress.
#[derive(Clone, Debug, PartialEq, Eq)]
pub struct ProofTask {
    /// The UUID of the task, as its 128-bit value.
    pub id: u128,
    pub status: TaskStatus,
    pub image_id: String,
    pub input_data: Option<Vec<u8>>,
    pub segment_count: i32,
    pub segment_size: i32,
    /// Time of creation, in seconds since the Unix epoch.
    pub created_at: i64,
}

/// One segment of a proof request, with its progress.
#[derive(Clone, Debug, PartialEq, Eq)]
pub struct ProofSegment {
    /// The UUID of the segment, as its 128-bit value.
    pub id: u128,
    /// The UUID of the task the segment belongs to.
    pub task_id: u128,
    pub segment_index: i32,
    pub gpu_id: Option<i32>,
    pub status: TaskStatus,
    pub proof: Option<Vec<u8>>,
}

} // verus!
