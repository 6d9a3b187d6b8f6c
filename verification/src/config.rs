//! Settings of a deployment.

use vstd::prelude::*;

verus! {

/// All settings of a deployment.
#[derive(Clone, Debug, PartialEq, Eq)]
pub struct Config {
    pub database: DatabaseConfig,
    pub redis: RedisConfig,
    pub storage: StorageConfig,
    pub compute_configs: Vec<ComputeConfig>,
}

/// Where the task database is.
#[derive(Clone, Debug, PartialEq, Eq)]
pub struct DatabaseConfig {
    pub url: String,
}

/// Where the redis cache is.
#[derive(Clone, Debug, PartialEq, Eq)]
pub struct RedisConfig {
    pub url: String,
}

/// Where finished proofs are written.
#[derive(Clone, Debug, PartialEq, Eq)]
pub struct StorageConfig {
    pub proof_output_dir: String,
}

/// One compute unit of the prover.
#[derive(Clone, Copy, Debug, PartialEq, Eq, Structural)]
pub struct ComputeConfig {
    pub id: usize,
    pub segment_size: usize,
    pub use_cpu: bool,
}

} // verus!
