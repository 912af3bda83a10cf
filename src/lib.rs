//! A load generator's transaction pipeline: a rate-limited FIFO of signed
//! payloads, the rate schedule that drives it, per-account nonce bookkeeping,
//! the placement of workers on cores, and the accounting of dispatched batches.

pub mod config;
pub mod limiter;
pub mod network_stats;
pub mod nonce_map;
pub mod payload_queue;
pub mod rpc;
pub mod stats;
pub mod tx_gen;
pub mod tx_queue;
pub mod utils;
pub mod workers;
