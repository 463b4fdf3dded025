//! Throughput and latency benchmarking harness for a tabular store of
//! blockchain-derived records (blocks, transactions, token transfers,
//! liquidity pools).
//!
//! The workload engine partitions a loaded dataset into batches for bulk
//! ingestion, generates randomized operation sequences from configurable
//! mixture weights, drives the store pattern by pattern, and aggregates the
//! measurements into comparable rates. The store itself is an external
//! collaborator behind the [`store::Store`] trait; an in-memory
//! implementation lives here so every pattern can be exercised without a
//! network.

pub mod batching;
pub mod bulk;
pub mod clock;
pub mod dataset;
pub mod error;
pub mod mixture;
pub mod models;
pub mod prober;
pub mod rate;
pub mod report;
pub mod rng;
pub mod store;
pub mod workload;

pub use batching::{Batch, BatchStrategy};
pub use bulk::{BulkFailure, BulkReport};
pub use dataset::Dataset;
pub use error::BenchmarkError;
pub use mixture::{Mixture, OpKind};
pub use models::{Block, Pool, Record, TableKind, Timestamp, Transaction, Transfer};
pub use rate::Rate;
pub use report::{BenchmarkConfig, BenchmarkSummary};
pub use rng::SeededRng;
pub use store::{MemStore, Store};
pub use workload::RunReport;
