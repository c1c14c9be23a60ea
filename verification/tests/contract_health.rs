use anchorkit::address::Address;
use anchorkit::contract::health::compute_freshness_score;
use anchorkit::contract::ledger::{AnchorKitContract, ContractError, Ledger};
use anchorkit::contract::types::{
    AnchorHealthWindow, Bytes, HealthStatus, HealthTrendDirection, MetadataCacheState,
};
use anchorkit::errors::ErrorCode;
use anchorkit::rate_limiter;
use anchorkit::rate_limiter::{RateLimitConfig, RateLimitState};

fn generate(n: u8) -> Address {
    Address::Contract([n; 32])
}

fn code<T>(r: Result<T, ContractError>) -> Option<ErrorCode> {
    match r {
        Err(ContractError::Code(c)) => Some(c),
        _ => None,
    }
}

fn setup() -> (Ledger, Address, Address) {
    let mut env = Ledger::new(1_000, 10);
    env.mock_all_auths();
    AnchorKitContract::initialize(&mut env, generate(1)).unwrap();
    let issuer = generate(9);
    AnchorKitContract::set_sep10_jwt_verifying_key(&mut env, issuer, Bytes::from_slice(&[7; 32])).unwrap();
    AnchorKitContract::register_attestor(&mut env, generate(2), "t".to_string(), issuer, [2; 32], true)
        .unwrap();
    (env, generate(1), generate(2))
}

fn window(success: u64, failure: u64, latency: u64, recovery: u64) -> AnchorHealthWindow {
    AnchorHealthWindow {
        started_at: 1,
        ended_at: 2,
        success_count: success,
        failure_count: failure,
        p50_latency_ms_x10: latency,
        routing_attempt_count: 10,
        routing_failure_count: 1,
        recovery_time_seconds: recovery,
    }
}

#[test]
fn freshness_falls_with_age() {
    assert_eq!(compute_freshness_score(0, 100, MetadataCacheState::Fresh, false), 100);
    assert_eq!(compute_freshness_score(25, 100, MetadataCacheState::Fresh, false), 75);
    assert_eq!(compute_freshness_score(25, 100, MetadataCacheState::Fresh, true), 65);
    assert_eq!(compute_freshness_score(25, 100, MetadataCacheState::Stale, false), 37);
    assert_eq!(compute_freshness_score(95, 100, MetadataCacheState::Fresh, true), 0);
    assert_eq!(compute_freshness_score(100, 100, MetadataCacheState::Fresh, false), 0);
    assert_eq!(compute_freshness_score(7, 0, MetadataCacheState::Fresh, false), 100);
    assert_eq!(compute_freshness_score(0, 100, MetadataCacheState::Expired, false), 0);
    assert_eq!(compute_freshness_score(0, 100, MetadataCacheState::Missing, false), 0);
}

#[test]
fn health_is_scored_from_the_last_windows() {
    let (mut env, _, a) = setup();
    AnchorKitContract::record_health_window(&mut env, a, window(99, 1, 5_000, 60)).unwrap();
    let s = AnchorKitContract::get_anchor_health_score(&env, a);
    // 9900 * 40% + 10000 * 25% + 9000 * 20% + 10000 * 15%
    assert_eq!(s.composite_bps, 9_760);
    assert_eq!((s.success_rate_bps, s.latency_bps, s.routing_bps, s.recovery_bps), (9_900, 10_000, 9_000, 10_000));
    assert_eq!((s.trend, s.window_count), (HealthTrendDirection::Stable, 1));
    AnchorKitContract::record_health_window(&mut env, a, window(50, 50, 52_500, 1_830)).unwrap();
    let s = AnchorKitContract::get_anchor_health_score(&env, a);
    // 5000 * 40% + 5000 * 25% + 9000 * 20% + 5000 * 15%
    assert_eq!((s.latency_bps, s.recovery_bps, s.composite_bps), (5_000, 5_000, 5_800));
    assert_eq!((s.trend, s.previous_composite_bps), (HealthTrendDirection::Degrading, 9_760));
    let m = AnchorKitContract::get_anchor_health(&env, a);
    assert_eq!((m.success_count, m.failure_count, m.uptime_bps), (149, 51, 7_450));
}

#[test]
fn at_most_a_day_of_windows_is_kept() {
    let (mut env, _, a) = setup();
    for i in 0..30u64 {
        AnchorKitContract::record_health_window(&mut env, a, window(i, 0, 1, 1)).unwrap();
    }
    let windows = AnchorKitContract::get_anchor_health_windows(&env, a);
    assert_eq!(windows.len(), 24);
    assert_eq!(windows[0].success_count, 6);
    assert_eq!(windows[23].success_count, 29);
}

#[test]
fn events_are_counted_and_reset() {
    let (mut env, _, a) = setup();
    for success in [true, true, false] {
        AnchorKitContract::record_health_event(&mut env, a, success).unwrap();
    }
    let m = AnchorKitContract::get_anchor_health(&env, a);
    assert_eq!((m.total_calls, m.uptime_bps, m.last_event_at), (3, 6_666, 1_000));
    AnchorKitContract::reset_anchor_health(&mut env, a).unwrap();
    assert_eq!(AnchorKitContract::get_anchor_health(&env, a).total_calls, 0);
}

#[test]
fn endpoint_proofs_verify_by_equality() {
    let (mut env, _, a) = setup();
    assert!(!AnchorKitContract::verify_endpoint_proof(&mut env, a, [1; 32]));
    AnchorKitContract::register_endpoint_proof(&mut env, a, "https://a".to_string(), [1; 32], true).unwrap();
    assert!(!AnchorKitContract::verify_endpoint_proof(&mut env, a, [2; 32]));
    assert!(!AnchorKitContract::get_endpoint_proof(&env, a).unwrap().verified);
    assert!(AnchorKitContract::verify_endpoint_proof(&mut env, a, [1; 32]));
    assert!(AnchorKitContract::get_endpoint_proof(&env, a).unwrap().verified);
}

#[test]
fn the_status_depends_on_the_limiter() {
    let env = Ledger::new(1_000, 10);
    assert_eq!(AnchorKitContract::get_health_status(&env), HealthStatus::Unavailable);
    let (mut env, admin, _) = setup();
    assert_eq!(AnchorKitContract::get_health_status(&env), HealthStatus::Degraded);
    AnchorKitContract::set_rate_limit_config(&mut env, admin, 5, 50).unwrap();
    assert_eq!(AnchorKitContract::get_health_status(&env), HealthStatus::Healthy);
    let d = AnchorKitContract::get_contract_diagnostics(&env);
    assert_eq!((d.rate_limit_max_submissions, d.rate_limit_window_length), (5, 50));
}

#[test]
fn windows_count_up_to_the_limit() {
    let config = RateLimitConfig { max_submissions: 2, window_length: 10 };
    let one = rate_limiter::check_and_increment(None, config, 100).unwrap();
    assert_eq!(one, RateLimitState { submission_count: 1, window_start_ledger: 100 });
    let two = rate_limiter::check_and_increment(Some(one), config, 109).unwrap();
    assert_eq!(two.submission_count, 2);
    assert_eq!(rate_limiter::check_and_increment(Some(two), config, 109), None);
    let fresh = rate_limiter::check_and_increment(Some(two), config, 110).unwrap();
    assert_eq!(fresh, RateLimitState { submission_count: 1, window_start_ledger: 110 });
}

#[test]
fn addresses_come_before_roles_and_the_default() {
    let (mut env, admin, a) = setup();
    let limit = |n: u32| RateLimitConfig { max_submissions: n, window_length: 10 };
    assert_eq!(AnchorKitContract::get_rate_limit_config(&env), RateLimitConfig {
        max_submissions: 10,
        window_length: 100,
    });
    AnchorKitContract::grant_role(
        &mut env,
        a,
        anchorkit::contract::types::AdminRole::KycAdmin,
    )
    .unwrap();
    AnchorKitContract::set_address_rate_limit(&mut env, admin, a, limit(3)).unwrap();
    assert_eq!(AnchorKitContract::resolve_rate_limit(&env, &a), limit(3));
    assert_eq!(AnchorKitContract::get_address_rate_limit(&env, a), Some(limit(3)));
    assert_eq!(
        code(AnchorKitContract::set_address_rate_limit(&mut env, admin, a, limit(0))),
        Some(ErrorCode::ValidationError)
    );
}

#[test]
fn supported_standards_are_listed() {
    assert_eq!(AnchorKitContract::supported_seps(), vec![6, 10, 24, 31, 38]);
    assert!(AnchorKitContract::supported_sep_feature_flags().sep31);
}
