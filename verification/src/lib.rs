//! zn: a zero-trust security layer for AI agent tool calls.
//!
//! The library holds the layer's decision logic: JSON-RPC validation and
//! the screening of tool calls (managed rule sets for restricted commands,
//! path traversal, SQL and prompt injection; the vision guard; the result
//! cache, agent reputation, the loop breaker and M-of-N consensus), PII
//! scrubbing, authentication decisions and tenant roles, admission and
//! signatures of policy modules, encryption of audit payloads, secret
//! vaults, the embedding cache, canary routing of model backends, webhook
//! bodies, and the configuration model with its environment overrides.
use vstd::prelude::*;

pub mod a2a;
pub mod ai;
pub mod audit;
pub mod auth;
pub mod batch;
pub mod clock;
pub mod codec;
pub mod config;
pub mod embedding_cache;
pub mod engine;
pub mod hashing;
pub mod jsonrpc;
pub mod lfi_guard;
pub mod management;
pub mod matcher;
pub mod pipeline;
pub mod prompt_guard;
pub mod proxy;
pub mod scrubber;
pub mod shield;
pub mod sql_guard;
pub mod tenants;
pub mod text;
pub mod vault;
pub mod webhooks;

verus! {

} // verus!
