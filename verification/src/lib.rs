//! The LLM-API-call daemon's library: provider registry, provider-call
//! planning and the engine's call state machine.

pub mod text;
pub mod contract;
pub mod provider;
pub mod registry;
pub mod engine;
pub mod redact;
pub mod config;
pub mod meta;
pub mod json;
pub mod interaction_log;
pub mod client;
pub mod writer;
