//! The contract: what each entry point decides and records.
pub mod access;
pub mod anchors;
pub mod attestations;
pub mod attestors;
pub mod cache;
pub mod events;
pub mod health;
pub mod keys;
pub mod kyc;
pub mod ledger;
pub mod limits;
pub mod policies;
pub mod quotes;
pub mod routing;
pub mod services;
pub mod sessions;
pub mod settings;
pub mod tomls;
pub mod tracing;
pub mod transactions;
pub mod types;
