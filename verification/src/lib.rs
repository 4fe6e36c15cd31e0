//! Verified core of a block-write throughput benchmark.
//!
//! The library contains the logic of the benchmark: deterministic block
//! content, buffer-pool accounting, the capacity-bounded submission ring
//! model, the bounded-window pipeline scheduler, and throughput reporting.
//! The surrounding process (argument handling, the kernel ring, the file)
//! drives these components from outside.

pub mod block;
pub mod config;
pub mod errors;
pub mod pool;
pub mod report;
pub mod ring;
pub mod run;
pub mod scheduler;
pub mod strategy;
