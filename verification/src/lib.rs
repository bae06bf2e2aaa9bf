//! Storage-device I/O benchmarking engine.
//!
//! Lays out a target file with a controllable mix of populated and sparse
//! blocks, then drives a latency-measured read or write workload against it
//! through one of several capacity-bounded asynchronous execution engines.

pub mod aligned;
pub mod bytes_cnt;
pub mod clock;
pub mod config;
pub mod engine;
pub mod junk;
pub mod layout;
pub mod memfile;
pub mod metrics;
pub mod op;
pub mod pool;
pub mod ringbuf;
pub mod rng;
pub mod run;
