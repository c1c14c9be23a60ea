use anchorkit::address::Address;
use anchorkit::contract::ledger::{AnchorKitContract, ContractError, Ledger};
use anchorkit::contract::limits::RateLimiter;
use anchorkit::contract::types::AdminCapability;
use anchorkit::rate_limiter::RateLimitConfig;
use anchorkit::errors::ErrorCode;

fn generate(n: u8) -> Address {
    Address::Contract([n; 32])
}

fn init_env() -> (Ledger, Address) {
    let mut env = Ledger::new(1_000, 10);
    env.mock_all_auths();
    let admin = generate(1);
    AnchorKitContract::initialize(&mut env, admin).unwrap();
    (env, admin)
}

/// With no overrides set, resolution falls back to the global default.
#[test]
fn test_default_behavior_uses_global_config() {
    let (mut env, admin) = init_env();
    let attestor = generate(2);

    AnchorKitContract::set_rate_limit_config(&mut env, admin, 7, 42).unwrap();
    let resolved = RateLimiter::resolve_config(&env, &attestor, None);
    assert_eq!(resolved.max_submissions, 7);
    assert_eq!(resolved.window_length, 42);
}

/// A role override takes effect for attestors resolved under that role.
#[test]
fn test_role_override_takes_precedence_over_global() {
    let (mut env, admin) = init_env();
    let attestor = generate(2);
    let role = "KycAdmin";

    AnchorKitContract::set_rate_limit_config(&mut env, admin, 10, 100).unwrap();
    AnchorKitContract::set_role_rate_limit(
        &mut env,
        admin,
        role.to_string(),
        RateLimitConfig { max_submissions: 3, window_length: 20 },
    ).unwrap();

    let resolved = RateLimiter::resolve_config(&env, &attestor, Some(role));
    assert_eq!(resolved.max_submissions, 3);
    assert_eq!(resolved.window_length, 20);
    assert_eq!(
        AnchorKitContract::get_role_rate_limit(&env, role.to_string()),
        Some(RateLimitConfig { max_submissions: 3, window_length: 20 })
    );
}

/// A per-address override takes precedence over a per-role override.
#[test]
fn test_address_override_takes_precedence_over_role() {
    let (mut env, admin) = init_env();
    let attestor = generate(2);
    let role = "KycAdmin";

    AnchorKitContract::set_rate_limit_config(&mut env, admin, 10, 100).unwrap();
    AnchorKitContract::set_role_rate_limit(
        &mut env,
        admin,
        role.to_string(),
        RateLimitConfig { max_submissions: 3, window_length: 20 },
    ).unwrap();
    AnchorKitContract::set_address_rate_limit(
        &mut env,
        admin,
        attestor,
        RateLimitConfig { max_submissions: 1, window_length: 5 },
    ).unwrap();

    let resolved = RateLimiter::resolve_config(&env, &attestor, Some(role));
    assert_eq!(resolved.max_submissions, 1);
    assert_eq!(resolved.window_length, 5);
    assert_eq!(
        AnchorKitContract::get_address_rate_limit(&env, attestor),
        Some(RateLimitConfig { max_submissions: 1, window_length: 5 })
    );
}

/// An address override does not leak to other attestors sharing the same role.
#[test]
fn test_address_override_does_not_affect_other_attestors() {
    let (mut env, admin) = init_env();
    let overridden = generate(2);
    let other = generate(3);
    let role = "KycAdmin";

    AnchorKitContract::set_rate_limit_config(&mut env, admin, 10, 100).unwrap();
    AnchorKitContract::set_role_rate_limit(
        &mut env,
        admin,
        role.to_string(),
        RateLimitConfig { max_submissions: 5, window_length: 50 },
    ).unwrap();
    AnchorKitContract::set_address_rate_limit(
        &mut env,
        admin,
        overridden,
        RateLimitConfig { max_submissions: 1, window_length: 5 },
    ).unwrap();

    let resolved_overridden = RateLimiter::resolve_config(&env, &overridden, Some(role));
    assert_eq!(resolved_overridden.max_submissions, 1);

    let resolved_other = RateLimiter::resolve_config(&env, &other, Some(role));
    assert_eq!(resolved_other.max_submissions, 5, "other attestor must keep the role override, not the address override");
}

/// get_address_rate_limit returns None when no override has been set.
#[test]
fn test_get_address_rate_limit_none_when_unset() {
    let (env, _admin) = init_env();
    let attestor = generate(2);
    assert_eq!(AnchorKitContract::get_address_rate_limit(&env, attestor), None);
}

/// Invalid override values (zero max_submissions / window_length) are rejected.
#[test]
fn test_set_address_rate_limit_rejects_invalid_config() {
    let (mut env, admin) = init_env();
    let attestor = generate(2);
    assert_eq!(
        AnchorKitContract::set_address_rate_limit(
        &mut env,
        admin,
        attestor,
        RateLimitConfig { max_submissions: 0, window_length: 10 },
    ),
        Err(ContractError::Code(ErrorCode::ValidationError))
    );
}

/// A caller without SetRateLimits (and not the admin) cannot set an address override.
#[test]
fn test_set_address_rate_limit_requires_capability() {
    let (mut env, _admin) = init_env();
    let stranger = generate(2);
    let attestor = generate(3);
    assert_eq!(
        AnchorKitContract::set_address_rate_limit(
        &mut env,
        stranger,
        attestor,
        RateLimitConfig { max_submissions: 5, window_length: 50 },
    ),
        Err(ContractError::Code(ErrorCode::Unauthorized))
    );
}

/// A delegate holding only SetRateLimits can set an address override.
#[test]
fn test_set_address_rate_limit_allowed_for_capability_holder() {
    let (mut env, _admin) = init_env();
    let delegate = generate(2);
    let attestor = generate(3);
    AnchorKitContract::grant_capability(&mut env, delegate, AdminCapability::SetRateLimits).unwrap();

    AnchorKitContract::set_address_rate_limit(
        &mut env,
        delegate,
        attestor,
        RateLimitConfig { max_submissions: 2, window_length: 8 },
    ).unwrap();

    assert_eq!(
        AnchorKitContract::get_address_rate_limit(&env, attestor),
        Some(RateLimitConfig { max_submissions: 2, window_length: 8 })
    );
}
