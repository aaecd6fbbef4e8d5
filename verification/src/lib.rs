//! Core logic of an embedding worker: a long-running service that finds
//! repository records whose source fields changed since their last embedding,
//! produces a fresh embedding through an external model provider, and writes
//! it back exactly once per change across competing worker instances.
//!
//! This crate holds the verified decision logic of that pipeline: the error
//! taxonomy and retry policy, configuration validation, the circuit breaker,
//! the token-bucket rate limiter, the LRU/TTL embedding cache, embedding
//! validation, the distributed lock rules, text preparation and truncation,
//! and batched write-back planning. The unverified shell around it (database
//! sessions, HTTP calls to providers, timers and signals) lives outside.

pub mod circuit_breaker;
pub mod config;
pub mod deduplication;
pub mod embedder;
pub mod embedding_cache;
pub mod error;
pub mod metrics;
pub mod migration;
pub mod models;
pub mod pool;
pub mod process_batch;
pub mod rate_limiter;
pub mod retry;
pub mod service;
pub mod strutil;
pub mod timing;
pub mod validation;

use vstd::prelude::*;

verus! {

} // verus!
