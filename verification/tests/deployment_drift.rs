use anchorkit::deployment_drift::{
    detect_drift, detect_drift_logged, ConfigEntry, DeploymentSnapshot, DeploymentSpec,
    DriftSeverity,
};
use anchorkit::structured_log::{events, FieldValue, StructuredLogger};

fn base_spec() -> DeploymentSpec {
    DeploymentSpec {
        environment: "testnet".into(),
        expected_version: "0.1.0".into(),
        expected_network: "Test SDF Network ; September 2015".into(),
        expected_admin: Some("GABC123".into()),
        expected_config: vec![
            ConfigEntry::new("rate_limit", "100"),
            ConfigEntry::new("max_sessions", "50"),
        ],
    }
}

fn base_snapshot() -> DeploymentSnapshot {
    DeploymentSnapshot {
        environment: "testnet".into(),
        captured_at: 9999,
        observed_version: "0.1.0".into(),
        observed_network: "Test SDF Network ; September 2015".into(),
        observed_admin: Some("GABC123".into()),
        observed_config: vec![
            ConfigEntry::new("rate_limit", "100"),
            ConfigEntry::new("max_sessions", "50"),
        ],
    }
}

#[test]
fn no_drift_when_spec_and_snapshot_match() {
    let report = detect_drift(&base_spec(), &base_snapshot());
    assert!(report.is_clean);
    assert_eq!(report.critical_count, 0);
    assert_eq!(report.medium_count, 0);
    assert_eq!(report.low_count, 0);
}

#[test]
fn version_mismatch_is_critical() {
    let mut snap = base_snapshot();
    snap.observed_version = "0.2.0".into();
    let report = detect_drift(&base_spec(), &snap);
    assert!(!report.is_clean);
    assert!(report.has_critical());
    let item = report.items.iter().find(|i| i.field == "version").unwrap();
    assert_eq!(item.severity, DriftSeverity::Critical);
    assert_eq!(item.expected.as_deref(), Some("0.1.0"));
    assert_eq!(item.observed.as_deref(), Some("0.2.0"));
}

#[test]
fn network_mismatch_is_critical() {
    let mut snap = base_snapshot();
    snap.observed_network = "Public Global Stellar Network ; September 2015".into();
    let report = detect_drift(&base_spec(), &snap);
    assert!(report.has_critical());
    assert!(report.items.iter().any(|i| i.field == "network"));
}

#[test]
fn admin_mismatch_is_critical() {
    let mut snap = base_snapshot();
    snap.observed_admin = Some("GDIFFERENT".into());
    let report = detect_drift(&base_spec(), &snap);
    assert!(report.has_critical());
    assert!(report.items.iter().any(|i| i.field == "admin"));
}

#[test]
fn missing_expected_admin_is_critical() {
    let mut snap = base_snapshot();
    snap.observed_admin = None;
    let report = detect_drift(&base_spec(), &snap);
    assert!(report.has_critical());
}

#[test]
fn unexpected_admin_in_snapshot_is_medium() {
    let mut spec = base_spec();
    spec.expected_admin = None;
    let report = detect_drift(&spec, &base_snapshot());
    let item = report.items.iter().find(|i| i.field == "admin").unwrap();
    assert_eq!(item.severity, DriftSeverity::Medium);
}

#[test]
fn config_value_mismatch_is_medium() {
    let mut snap = base_snapshot();
    snap.observed_config[0].value = "200".into(); // rate_limit changed
    let report = detect_drift(&base_spec(), &snap);
    assert_eq!(report.medium_count, 1);
    let item = report.items.iter().find(|i| i.field == "config.rate_limit").unwrap();
    assert_eq!(item.severity, DriftSeverity::Medium);
}

#[test]
fn missing_config_key_is_medium() {
    let mut snap = base_snapshot();
    snap.observed_config.retain(|e| e.key != "max_sessions");
    let report = detect_drift(&base_spec(), &snap);
    assert!(report.items.iter().any(|i| i.field == "config.max_sessions"));
    assert_eq!(
        report.items.iter().find(|i| i.field == "config.max_sessions").unwrap().severity,
        DriftSeverity::Medium
    );
}

#[test]
fn extra_config_key_in_snapshot_is_low() {
    let mut snap = base_snapshot();
    snap.observed_config.push(ConfigEntry::new("extra_key", "val"));
    let report = detect_drift(&base_spec(), &snap);
    let item = report.items.iter().find(|i| i.field == "config.extra_key").unwrap();
    assert_eq!(item.severity, DriftSeverity::Low);
}

#[test]
fn items_sorted_critical_first() {
    let mut snap = base_snapshot();
    snap.observed_version = "0.2.0".into();        // critical
    snap.observed_config[0].value = "999".into();  // medium
    snap.observed_config.push(ConfigEntry::new("extra", "x")); // low
    let report = detect_drift(&base_spec(), &snap);
    let severities: Vec<&DriftSeverity> =
        report.items.iter().map(|i| &i.severity).collect();
    // Verify descending order (Critical >= Medium >= Low).
    for window in severities.windows(2) {
        assert!(window[0] >= window[1]);
    }
}

#[test]
fn items_at_or_above_filters_correctly() {
    let mut snap = base_snapshot();
    snap.observed_version = "0.2.0".into();
    snap.observed_config[0].value = "999".into();
    snap.observed_config.push(ConfigEntry::new("extra", "x"));
    let report = detect_drift(&base_spec(), &snap);
    let critical_only = report.items_at_or_above(DriftSeverity::Critical);
    assert!(critical_only.iter().all(|i| i.severity == DriftSeverity::Critical));
    let med_and_above = report.items_at_or_above(DriftSeverity::Medium);
    assert!(med_and_above.iter().all(|i| i.severity >= DriftSeverity::Medium));
}

#[test]
fn report_environment_matches_spec() {
    let report = detect_drift(&base_spec(), &base_snapshot());
    assert_eq!(report.environment, "testnet");
    assert_eq!(report.snapshot_captured_at, 9999);
}

#[test]
fn drift_detected_event_emitted_when_drift_found() {

    let mut snap = base_snapshot();
    snap.observed_version = "0.2.0".into(); // introduce drift

    let mut logger = StructuredLogger::new();
    let report = detect_drift_logged(&base_spec(), &snap, &mut logger, 1234);

    assert!(!report.is_clean, "report must show drift");
    assert_eq!(logger.len(), 1, "exactly one event must be emitted");

    let record = &logger.records()[0];
    assert_eq!(record.event, events::DEPLOYMENT_DRIFT_DETECTED);
    assert_eq!(
        record.field("environment"),
        Some(&FieldValue::Str("testnet".into()))
    );
    assert_eq!(record.timestamp, 1234);
}

#[test]
fn no_event_emitted_when_no_drift() {

    let mut logger = StructuredLogger::new();
    let report = detect_drift_logged(&base_spec(), &base_snapshot(), &mut logger, 1234);

    assert!(report.is_clean, "clean deployment must produce no drift");
    assert_eq!(logger.len(), 0, "no event must be emitted for a clean result");
}

#[test]
fn equivalent_address_different_case_does_not_drift() {
    let mut snap = base_snapshot();
    // Same address as spec's "GABC123" but in lowercase — must not drift.
    snap.observed_admin = Some("gabc123".into());

    let report = detect_drift(&base_spec(), &snap);
    assert!(
        report.is_clean,
        "addresses equal after normalization must not produce a drift item"
    );
}

#[test]
fn equivalent_address_with_whitespace_does_not_drift() {
    let mut snap = base_snapshot();
    snap.observed_admin = Some("  GABC123  ".into());

    let report = detect_drift(&base_spec(), &snap);
    assert!(
        report.is_clean,
        "addresses equal after trimming must not produce a drift item"
    );
}

#[test]
fn genuinely_different_address_still_drifts() {
    let mut snap = base_snapshot();
    snap.observed_admin = Some("GDIFFERENTADDRESS".into());

    let report = detect_drift(&base_spec(), &snap);
    assert!(!report.is_clean);
    assert!(report.has_critical());
    let item = report.items.iter().find(|i| i.field == "admin").unwrap();
    assert_eq!(item.severity, DriftSeverity::Critical);
    // Original (un-normalized) strings preserved in output.
    assert_eq!(item.expected.as_deref(), Some("GABC123"));
    assert_eq!(item.observed.as_deref(), Some("GDIFFERENTADDRESS"));
}
