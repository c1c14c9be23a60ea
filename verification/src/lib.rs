//! AnchorKit: a registry, quote book and router for Stellar anchors.
//!
//! [`contract`] holds the entry points of the contract over a ledger; the other
//! modules are what it is made of, and tools around it.
pub mod address;
pub mod alert_routing;
pub mod api_versioning;
pub mod arith;
pub mod cache_governance;
pub mod config;
pub mod contract;
pub mod deployment_drift;
pub mod deterministic_hash;
pub mod distributed_correlation;
pub mod encoding;
pub mod errors;
pub mod laws;
pub mod lists;
pub mod migration;
pub mod rate_limiter;
pub mod replay_detection;
pub mod service_management;
pub mod session_state_machine;
pub mod signature;
pub mod sorting;
pub mod structured_log;
pub mod table;
pub mod text;
pub mod transaction_state_tracker;
