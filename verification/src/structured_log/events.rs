//! Names of the events that are logged.
use vstd::prelude::*;

verus! {

pub const DEPLOYMENT_DRIFT_DETECTED: &'static str = "deployment.drift_detected";

pub const CACHE_POLICY_UPDATED: &'static str = "cache.policy_updated";

pub const CACHE_POLICY_REJECTED: &'static str = "cache.policy_rejected";

pub const CACHE_TTL_CLAMPED: &'static str = "cache.ttl_clamped";

pub const CACHE_INVALIDATION_DENIED: &'static str = "cache.invalidation_denied";

pub const CACHE_PROPOSAL_CREATED: &'static str = "cache.proposal_created";

pub const CACHE_PROPOSAL_ENDORSED: &'static str = "cache.proposal_endorsed";

pub const CACHE_PROPOSAL_ENDORSE_FAILED: &'static str = "cache.proposal_endorse_failed";

pub const CACHE_PROPOSAL_EXECUTED: &'static str = "cache.proposal_executed";

pub const CACHE_PROPOSAL_EXECUTE_FAILED: &'static str = "cache.proposal_execute_failed";

} // verus!
