//! The monitoring section of a loaded configuration.
use std::collections::BTreeMap;
use vstd::prelude::*;

verus! {

/// One configured alert.
#[derive(Debug)]
pub struct AlertConfig {
    pub condition: String,
    pub severity: String,
    pub recipients: Vec<String>,
    pub extra: BTreeMap<String, String>,
}

/// The monitoring section.
#[derive(Debug)]
pub struct MonitoringConfig {
    pub enable_metrics: Option<bool>,
    pub log_all_operations: Option<bool>,
    pub alert_on_failed_attestations: Option<bool>,
    pub alert_on_replay_attempts: Option<bool>,
    pub metrics_namespace: Option<String>,
    pub alerts: Option<Vec<AlertConfig>>,
}

} // verus!
