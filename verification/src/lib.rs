//! The orchestration core of a proving service: the tasks of a job, the
//! queue that schedules them, and the agent that works the queue and serves
//! the remote task channel.

pub mod agent;
pub mod artifact;
pub mod client;
pub mod config;
pub mod cycle;
pub mod dispatch;
pub mod ident;
pub mod lifecycle;
pub mod planner;
pub mod queue;
pub mod receipt;
pub mod remote;
pub mod report;
pub mod scheduler;
pub mod search;
pub mod stream;
pub mod tasks;
pub mod transfer;
pub mod work;

use vstd::prelude::*;

verus! {

/// Where the task database of the prover is.
#[derive(Clone, Debug, PartialEq, Eq)]
pub struct DatabaseConfig {
    pub url: String,
}

/// One accelerator of the prover.
#[derive(Clone, Copy, Debug, PartialEq, Eq, Structural)]
pub struct GpuConfig {
    pub id: usize,
    pub segment_size: usize,
}

/// Settings of the prover.
#[derive(Clone, Debug, PartialEq, Eq)]
pub struct Config {
    pub database: DatabaseConfig,
    pub gpu_configs: Vec<GpuConfig>,
}

} // verus!
