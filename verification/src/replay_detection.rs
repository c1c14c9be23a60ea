//! What is counted of submissions.
use vstd::prelude::*;

verus! {

/// How many submissions were accepted, and how many were replays.
#[derive(Clone, Copy, Debug, PartialEq, Eq, Structural)]
pub struct ReplayMetrics {
    pub total_detected: u64,
    pub total_accepted: u64,
}

} // verus!
