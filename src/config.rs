//! Typed settings that the pipeline's parts are built from.
use vstd::prelude::*;

verus! {

/// Settings of the dispatchers that drain the queue into the endpoint.
#[derive(Clone, Debug)]
pub struct NetworkWorkerConfig {
    pub target_url: String,
    pub total_connections: u64,
    pub batch_factor: usize,
    pub error_sleep_ms: u64,
    pub tx_queue_empty_sleep_ms: u64,
}

/// Settings of the producers that sign transfers.
#[derive(Clone, Debug)]
pub struct TxGenWorkerConfig {
    pub chain_id: u64,
    pub mnemonic: String,
    pub num_accounts: u32,
    pub gas_price: u64,
    pub gas_limit: u64,
    pub token_contract_address: String,
    pub recipient_distribution_factor: u32,
    pub max_transfer_amount: u64,
    pub batch_size: u32,
}

/// The starting pop rate, and `(total_popped threshold, new rate)` steps
/// sorted by threshold.
#[derive(Clone, Debug)]
pub struct RateLimitingConfig {
    pub initial_ratelimit: u64,
    pub ratelimit_thresholds: Vec<(u32, u64)>,
}

/// How the cores are shared between producers and dispatchers; the shares
/// are in parts per `workers::PERCENTAGE_SCALE`.
#[derive(Clone, Debug)]
pub struct WorkersConfig {
    pub thread_pinning: bool,
    pub tx_gen_worker_percentage: u64,
    pub network_worker_percentage: u64,
}

/// Periods of the two reporters, in seconds.
#[derive(Clone, Debug)]
pub struct ReportersConfig {
    pub tx_queue_report_interval_secs: u64,
    pub network_stats_report_interval_secs: u64,
}

/// All settings of a run.
#[derive(Clone, Debug)]
pub struct Config {
    pub tx_gen_worker: TxGenWorkerConfig,
    pub network_worker: NetworkWorkerConfig,
    pub rate_limiting: RateLimitingConfig,
    pub workers: WorkersConfig,
    pub reporters: ReportersConfig,
}

} // verus!
