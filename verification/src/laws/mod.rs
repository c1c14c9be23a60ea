//! What the operations of the contract are for: laws over the records that they
//! read and the results that they give.
pub mod access;
pub mod alerts;
pub mod anchors;
pub mod attestations;
pub mod attestors;
pub mod cache;
pub mod changes;
pub mod details;
pub mod encodings;
pub mod health;
pub mod identity;
pub mod limits;
pub mod names;
pub mod offers;
pub mod quotes;
pub mod reads;
pub mod records;
pub mod registers;
pub mod routing;
pub mod services;
pub mod sessions;
pub mod stores;
pub mod tomls;
pub mod tracing;
pub mod transactions;
