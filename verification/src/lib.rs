//! A micro-benchmark harness for pluggable key-value storage backends.
//!
//! The verified core is the workload execution engine: reproducible skewed
//! data generators, the two-phase load/run protocol, the per-worker run
//! loop, and the latency/throughput statistics model. Storage backends are
//! external collaborators behind the `Database` capability.

pub mod database;
pub mod generator;
pub mod hist;
pub mod render;
pub mod stats;
pub mod timer;
pub mod workload;
