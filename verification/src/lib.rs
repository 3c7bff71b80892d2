//! Verified core of a proving worker.
//!
//! The crate holds the decisions of the worker: which segments it proves and from
//! which snapshot, how a request is routed, how results are folded, when a staged
//! input may be reclaimed. Threads, sockets and provers live outside of it.

pub mod active_leaves;
pub mod artifacts;
pub mod cancellation;
pub mod config;
pub mod context;
pub mod convert;
pub mod dispatch;
pub mod encoding;
pub mod evm;
pub mod execution_input;
pub mod handlers;
pub mod janitor;
pub mod json;
pub mod openvm_config;
pub mod program;
pub mod prover_pool;
pub mod provers;
pub mod recursion;
pub mod registration;
pub mod requests;
pub mod result_client;
pub mod results;
mod sdk;
pub mod segments;
pub mod server;
pub mod simulation;
pub mod snapshots;
pub mod span_timing;
pub mod tail_merge;
pub mod text;
pub mod uploads;
