use anchorkit::alert_routing::{
    AlertRoute, AlertRouter, AlertRouterConfig, AlertRule, AlertSeverity,
};
use anchorkit::config::{AlertConfig, MonitoringConfig};
use anchorkit::errors::ErrorCode;
use std::collections::BTreeMap;

fn make_router() -> AlertRouter {
    AlertRouter::new(AlertRouterConfig {
        rules: vec![
            AlertRule {
                severity: AlertSeverity::Critical,
                scope: None,
                routes: vec![AlertRoute::webhook("https://hooks.example.com/critical")],
            },
            AlertRule {
                severity: AlertSeverity::Warning,
                scope: Some("payments".into()),
                routes: vec![AlertRoute::email("payments@example.com")],
            },
            AlertRule {
                severity: AlertSeverity::Error,
                scope: Some("kyc".into()),
                routes: vec![
                    AlertRoute::webhook("https://hooks.example.com/kyc"),
                    AlertRoute::email("kyc-oncall@example.com"),
                ],
            },
        ],
        default_routes: vec![AlertRoute::webhook("https://hooks.example.com/default")],
    })
}

#[test]
fn routes_critical_with_no_scope() {
    let router = make_router();
    let routes = router.route(AlertSeverity::Critical, None);
    assert_eq!(routes.len(), 1);
    assert_eq!(routes[0].channel, "webhook");
    assert!(routes[0].destination.contains("critical"));
}

#[test]
fn routes_critical_with_any_scope_due_to_none_rule() {
    let router = make_router();
    let routes = router.route(AlertSeverity::Critical, Some("payments"));
    assert_eq!(routes.len(), 1);
    assert!(routes[0].destination.contains("critical"));
}

#[test]
fn routes_warning_scoped_to_payments() {
    let router = make_router();
    let routes = router.route(AlertSeverity::Warning, Some("payments"));
    assert_eq!(routes.len(), 1);
    assert_eq!(routes[0].channel, "email");
    assert_eq!(routes[0].destination, "payments@example.com");
}

#[test]
fn routes_error_with_kyc_scope_returns_multiple_routes() {
    let router = make_router();
    let routes = router.route(AlertSeverity::Error, Some("kyc"));
    assert_eq!(routes.len(), 2);
}

#[test]
fn unknown_scope_falls_back_to_default() {
    let router = make_router();
    let routes = router.route(AlertSeverity::Info, Some("unknown-scope"));
    assert_eq!(routes.len(), 1);
    assert!(routes[0].destination.contains("default"));
}

#[test]
fn no_match_and_no_default_returns_empty() {
    let router = AlertRouter::new(AlertRouterConfig {
        rules: vec![],
        default_routes: vec![],
    });
    let routes = router.route(AlertSeverity::Critical, None);
    assert!(routes.is_empty());
    assert!(!router.has_route(AlertSeverity::Critical, None));
}

#[test]
fn has_route_returns_true_when_default_matches() {
    let router = make_router();
    assert!(router.has_route(AlertSeverity::Info, None));
}

#[test]
fn severity_label_round_trips() {
    for sev in [
        AlertSeverity::Info,
        AlertSeverity::Warning,
        AlertSeverity::Error,
        AlertSeverity::Critical,
    ] {
        let parsed = AlertSeverity::from_str(sev.label());
        assert_eq!(parsed, Some(sev));
    }
}

#[test]
fn severity_from_str_is_case_insensitive() {
    assert_eq!(AlertSeverity::from_str("CRITICAL"), Some(AlertSeverity::Critical));
    assert_eq!(AlertSeverity::from_str("Warning"), Some(AlertSeverity::Warning));
}

#[test]
fn severity_from_str_unknown_returns_none() {
    assert_eq!(AlertSeverity::from_str("urgent"), None);
}

#[test]
fn alert_rule_scope_none_matches_all_scopes() {
    let rule = AlertRule {
        severity: AlertSeverity::Error,
        scope: None,
        routes: vec![],
    };
    assert!(rule.matches(AlertSeverity::Error, None));
    assert!(rule.matches(AlertSeverity::Error, Some("payments")));
    assert!(rule.matches(AlertSeverity::Error, Some("kyc")));
}

#[test]
fn alert_rule_scope_some_requires_exact_match() {
    let rule = AlertRule {
        severity: AlertSeverity::Warning,
        scope: Some("payments".into()),
        routes: vec![],
    };
    assert!(rule.matches(AlertSeverity::Warning, Some("payments")));
    assert!(!rule.matches(AlertSeverity::Warning, Some("kyc")));
    assert!(!rule.matches(AlertSeverity::Warning, None));
}

#[test]
fn multiple_rules_for_same_severity_all_contribute_routes() {
    let router = AlertRouter::new(AlertRouterConfig {
        rules: vec![
            AlertRule {
                severity: AlertSeverity::Critical,
                scope: None,
                routes: vec![AlertRoute::webhook("https://a.example.com")],
            },
            AlertRule {
                severity: AlertSeverity::Critical,
                scope: None,
                routes: vec![AlertRoute::email("ops@example.com")],
            },
        ],
        default_routes: vec![],
    });
    let routes = router.route(AlertSeverity::Critical, None);
    assert_eq!(routes.len(), 2);
}

#[test]
fn duplicate_destinations_are_deduplicated_preserving_order() {
    // Two rules both route Critical to the same webhook URL.
    let router = AlertRouter::new(AlertRouterConfig {
        rules: vec![
            AlertRule {
                severity: AlertSeverity::Critical,
                scope: None,
                routes: vec![
                    AlertRoute::webhook("https://hooks.example.com/critical"),
                    AlertRoute::email("ops@example.com"),
                ],
            },
            AlertRule {
                severity: AlertSeverity::Critical,
                scope: None,
                routes: vec![
                    AlertRoute::webhook("https://hooks.example.com/critical"), // duplicate
                    AlertRoute::email("security@example.com"),
                ],
            },
        ],
        default_routes: vec![],
    });
    let routes = router.route(AlertSeverity::Critical, None);
    // Duplicate webhook URL is removed; distinct destinations remain.
    assert_eq!(routes.len(), 3);
    assert_eq!(routes[0].destination, "https://hooks.example.com/critical");
    assert_eq!(routes[1].destination, "ops@example.com");
    assert_eq!(routes[2].destination, "security@example.com");
}

#[test]
fn identical_routes_across_rules_yield_single_entry() {
    let router = AlertRouter::new(AlertRouterConfig {
        rules: vec![
            AlertRule {
                severity: AlertSeverity::Warning,
                scope: None,
                routes: vec![AlertRoute::email("ops@example.com")],
            },
            AlertRule {
                severity: AlertSeverity::Warning,
                scope: None,
                routes: vec![AlertRoute::email("ops@example.com")],
            },
        ],
        default_routes: vec![],
    });
    let routes = router.route(AlertSeverity::Warning, None);
    assert_eq!(routes.len(), 1);
    assert_eq!(routes[0].destination, "ops@example.com");
}

#[test]
fn distinct_destinations_are_all_preserved() {
    let router = AlertRouter::new(AlertRouterConfig {
        rules: vec![
            AlertRule {
                severity: AlertSeverity::Info,
                scope: None,
                routes: vec![AlertRoute::email("a@example.com")],
            },
            AlertRule {
                severity: AlertSeverity::Info,
                scope: None,
                routes: vec![AlertRoute::email("b@example.com")],
            },
        ],
        default_routes: vec![],
    });
    let routes = router.route(AlertSeverity::Info, None);
    assert_eq!(routes.len(), 2);
}

#[test]
fn try_new_rejects_blank_destination() {
    let result = AlertRoute::try_new("webhook", "");
    assert!(result.is_err());
    let err = result.unwrap_err();
    assert!(err.context.as_deref().unwrap_or("").contains("destination")
        || err.message.contains("destination")
        || err.code == ErrorCode::ValidationError);
}

#[test]
fn try_new_rejects_whitespace_only_destination() {
    let result = AlertRoute::try_new("email", "   ");
    assert!(result.is_err());
}

#[test]
fn try_new_accepts_valid_destination() {
    let result = AlertRoute::try_new("webhook", "https://hooks.example.com/alert");
    assert!(result.is_ok());
    let route = result.unwrap();
    assert_eq!(route.destination, "https://hooks.example.com/alert");
}

#[test]
fn default_severity_is_warning() {
    assert_eq!(AlertSeverity::default(), AlertSeverity::Warning);
}

#[test]
fn explicit_severity_is_not_overridden_by_default() {
    // Ensure default() only applies when no severity is given; explicit
    // values must remain unchanged.
    for sev in [
        AlertSeverity::Info,
        AlertSeverity::Warning,
        AlertSeverity::Error,
        AlertSeverity::Critical,
    ] {
        // A rule carrying an explicit severity must keep it.
        let rule = AlertRule { severity: sev, scope: None, routes: vec![] };
        assert_eq!(rule.severity, sev);
    }
}

fn monitoring_with_severities(severities: &[&str]) -> MonitoringConfig {
    let alerts = severities
        .iter()
        .map(|sev| AlertConfig {
            condition: "payments".into(),
            severity: (*sev).into(),
            recipients: vec!["https://hooks.example.com/a".into()],
            extra: BTreeMap::new(),
        })
        .collect::<Vec<_>>();
    MonitoringConfig {
        enable_metrics: None,
        log_all_operations: None,
        alert_on_failed_attestations: None,
        alert_on_replay_attempts: None,
        metrics_namespace: None,
        alerts: Some(alerts),
    }
}

#[test]
fn from_monitoring_config_accepts_known_severities() {
    let config = monitoring_with_severities(&["critical", "warning", "info", "error"]);
    let router = AlertRouterConfig::from_monitoring_config(Some(&config));
    let router = router.expect("all severities are known");
    assert_eq!(router.rules.len(), 4);
    assert_eq!(router.rules[0].severity, AlertSeverity::Critical);
    assert_eq!(router.rules[3].severity, AlertSeverity::Error);
}

#[test]
fn from_monitoring_config_accepts_none() {
    assert!(AlertRouterConfig::from_monitoring_config(None).is_ok());
}

#[test]
fn from_monitoring_config_rejects_unknown_severity() {
    let config = monitoring_with_severities(&["urgent"]);
    let result = AlertRouterConfig::from_monitoring_config(Some(&config));
    let err = result.expect_err("unknown severity must fail configuration");
    assert_eq!(err.code, ErrorCode::ValidationError);
    let context = err.context.as_deref().unwrap_or("");
    assert!(
        context.contains("severity") && context.contains("urgent"),
        "error must identify the offending field and value: {context}"
    );
}

#[test]
fn from_monitoring_config_rejects_blank_severity() {
    let config = monitoring_with_severities(&[""]);
    let result = AlertRouterConfig::from_monitoring_config(Some(&config));
    assert!(
        result.is_err(),
        "blank severity must fail instead of defaulting to Warning"
    );
}

#[test]
fn a_rule_without_routes_keeps_the_defaults_out() {
    let router = AlertRouter::new(AlertRouterConfig {
        rules: vec![AlertRule { severity: AlertSeverity::Critical, scope: None, routes: vec![] }],
        default_routes: vec![AlertRoute::webhook("https://hooks.example.com/default")],
    });
    assert!(router.route(AlertSeverity::Critical, None).is_empty());
    assert!(!router.has_route(AlertSeverity::Critical, None));
    assert_eq!(router.route(AlertSeverity::Info, None).len(), 1);
    assert!(router.has_route(AlertSeverity::Info, None));
}

#[test]
fn every_recipient_gets_a_route() {
    let mut config = monitoring_with_severities(&["critical"]);
    if let Some(alerts) = config.alerts.as_mut() {
        alerts[0].recipients = vec!["".into(), "https://hooks.example.com/a".into()];
    }
    let router = AlertRouterConfig::from_monitoring_config(Some(&config)).unwrap();
    assert_eq!(router.rules.len(), 1);
    assert_eq!(router.rules[0].routes.len(), 2);
    assert_eq!(router.rules[0].routes[0].destination, "");
    assert_eq!(router.rules[0].routes[1].destination, "https://hooks.example.com/a");
    assert_eq!(router.rules[0].routes[0].channel, "webhook");
}
