use anchorkit::address::Address;
use anchorkit::contract::ledger::{AnchorKitContract, ContractError, Ledger};
use anchorkit::contract::types::{AdminCapability, AdminRole, SERVICE_DEPOSITS};
use anchorkit::errors::ErrorCode;

fn generate(n: u8) -> Address {
    Address::Contract([n; 32])
}

fn init_env() -> (Ledger, Address) {
    let mut env = Ledger::new(1_000, 10);
    env.mock_all_auths();
    let admin = generate(1);
    AnchorKitContract::initialize(&mut env, admin).unwrap();
    (env, admin)
}

// Initialization lifecycle

/// Calling initialize() a second time must fail with AlreadyInitialized.
#[test]
fn test_duplicate_initialization_panics() {
    let (mut env, admin) = init_env();
    // Second call must fail.
    assert_eq!(
        AnchorKitContract::initialize(&mut env, admin),
        Err(ContractError::Code(ErrorCode::AlreadyInitialized))
    );
}

/// is_initialized() returns true after a successful initialize().
#[test]
fn test_is_initialized_after_init() {
    let (env, _admin) = init_env();
    assert!(AnchorKitContract::is_initialized(&env));
}

/// get_admin() returns the address passed to initialize().
#[test]
fn test_get_admin_matches_initializer() {
    let (env, admin) = init_env();
    assert_eq!(AnchorKitContract::get_admin(&env).unwrap(), admin);
}

// Upgrade lifecycle

/// upgrade() rejects a zeroed WASM hash with ValidationError.
#[test]
fn test_upgrade_rejects_zero_hash() {
    let (mut env, _admin) = init_env();
    let zero_hash = [0u8; 32];
    assert_eq!(
        AnchorKitContract::upgrade(&mut env, zero_hash),
        Err(ContractError::Code(ErrorCode::ValidationError))
    );
}

/// A non-admin address may not call upgrade().
#[test]
fn test_upgrade_unauthorized_non_admin() {
    let mut env = Ledger::new(1_000, 10);
    let admin = generate(2);
    env.mock_all_auths();
    AnchorKitContract::initialize(&mut env, admin).unwrap();

    // From here on only the non-admin has signed.
    let non_admin = generate(3);
    env.auth.all = false;
    env.auth.signers.push(non_admin);
    assert_eq!(
        AnchorKitContract::upgrade(&mut env, [7u8; 32]),
        Err(ContractError::Code(ErrorCode::UnauthorizedAttestor))
    );
}

// Migrate lifecycle

/// migrate() must fail when called before initialize().
#[test]
fn test_migrate_before_init_panics() {
    let mut env = Ledger::new(1_000, 10);
    env.mock_all_auths();
    // No initialize() call — must fail with NotInitialized.
    assert_eq!(
        AnchorKitContract::migrate(&mut env, 1, 10),
        Err(ContractError::Code(ErrorCode::NotInitialized))
    );
}

/// migrate() rejects version 0.
#[test]
fn test_migrate_version_zero_panics() {
    let (mut env, _admin) = init_env();
    assert_eq!(
        AnchorKitContract::migrate(&mut env, 0, 10),
        Err(ContractError::Code(ErrorCode::ValidationError))
    );
}

/// migrate() rejects a version that doesn't advance (same as current).
#[test]
fn test_migrate_non_advancing_version_panics() {
    let (mut env, _admin) = init_env();
    // First migrate to v2.
    AnchorKitContract::migrate(&mut env, 2, 10).unwrap();
    // Attempting to re-run with v2 must fail.
    assert_eq!(
        AnchorKitContract::migrate(&mut env, 2, 10),
        Err(ContractError::Code(ErrorCode::ValidationError))
    );
}

/// migrate() rejects a version beyond what the contract knows about.
#[test]
fn test_migrate_future_version_panics() {
    let (mut env, _admin) = init_env();
    // SCHEMA_V2 = 2; anything strictly greater is unknown.
    assert_eq!(
        AnchorKitContract::migrate(&mut env, 9999, 10),
        Err(ContractError::Code(ErrorCode::UnsupportedCapabilityVersion))
    );
}

/// migrate() succeeds when advancing to v2 and updates get_schema_version().
#[test]
fn test_migrate_to_v2_succeeds() {
    let (mut env, _admin) = init_env();
    AnchorKitContract::migrate(&mut env, 2, 100).unwrap();
    assert_eq!(AnchorKitContract::get_schema_version(&env), 2);
}

// Capability grant / revoke / query

/// grant_capability gives a non-admin address the specified capability.
#[test]
fn test_grant_and_has_capability() {
    let (mut env, _admin) = init_env();
    let delegate = generate(2);
    AnchorKitContract::grant_capability(
        &mut env,
        delegate,
        AdminCapability::ToggleServices,
    ).unwrap();
    assert!(AnchorKitContract::has_capability(
        &env,
        delegate,
        AdminCapability::ToggleServices
    ));
}

/// revoke_capability removes the capability from the grantee.
#[test]
fn test_revoke_capability_removes_access() {
    let (mut env, _admin) = init_env();
    let delegate = generate(2);
    AnchorKitContract::grant_capability(
        &mut env,
        delegate,
        AdminCapability::SetCacheConfig,
    ).unwrap();
    AnchorKitContract::revoke_capability(
        &mut env,
        delegate,
        AdminCapability::SetCacheConfig,
    ).unwrap();
    assert!(!AnchorKitContract::has_capability(
        &env,
        delegate,
        AdminCapability::SetCacheConfig
    ));
}

/// Granting the same capability twice is idempotent.
#[test]
fn test_grant_capability_idempotent() {
    let (mut env, _admin) = init_env();
    let delegate = generate(2);
    AnchorKitContract::grant_capability(
        &mut env,
        delegate,
        AdminCapability::ManageKyc,
    ).unwrap();
    AnchorKitContract::grant_capability(
        &mut env,
        delegate,
        AdminCapability::ManageKyc,
    ).unwrap();
    assert!(AnchorKitContract::has_capability(
        &env,
        delegate,
        AdminCapability::ManageKyc
    ));
}

/// Revoking a capability that was never granted is a no-op (no panic).
#[test]
fn test_revoke_never_granted_is_noop() {
    let (mut env, _admin) = init_env();
    let delegate = generate(2);
    // Must not panic.
    AnchorKitContract::revoke_capability(
        &mut env,
        delegate,
        AdminCapability::MigrateSchema,
    ).unwrap();
    assert!(!AnchorKitContract::has_capability(
        &env,
        delegate,
        AdminCapability::MigrateSchema
    ));
}

/// The primary admin implicitly holds every capability.
#[test]
fn test_admin_implicitly_holds_all_capabilities() {
    let (env, admin) = init_env();
    let caps = [
        AdminCapability::UpgradeContract,
        AdminCapability::MigrateSchema,
        AdminCapability::SetCacheConfig,
        AdminCapability::ManageAttestors,
        AdminCapability::ManageKyc,
        AdminCapability::ManageCacheEntries,
        AdminCapability::ToggleServices,
        AdminCapability::SetRateLimits,
        AdminCapability::SetJwtConfig,
        AdminCapability::ManageAnchorMetadata,
    ];
    for cap in caps {
        assert!(
            AnchorKitContract::has_capability(&env, admin, cap),
            "admin should implicitly hold {cap:?}"
        );
    }
}

/// A fresh address holds no capabilities by default.
#[test]
fn test_fresh_address_holds_no_capabilities() {
    let (env, _admin) = init_env();
    let stranger = generate(2);
    let caps = [
        AdminCapability::UpgradeContract,
        AdminCapability::MigrateSchema,
        AdminCapability::SetCacheConfig,
        AdminCapability::ManageAttestors,
        AdminCapability::ManageKyc,
        AdminCapability::ManageCacheEntries,
        AdminCapability::ToggleServices,
        AdminCapability::SetRateLimits,
        AdminCapability::SetJwtConfig,
        AdminCapability::ManageAnchorMetadata,
    ];
    for cap in caps {
        assert!(
            !AnchorKitContract::has_capability(&env, stranger, cap),
            "stranger should not hold {cap:?}"
        );
    }
}

// Service toggle capability enforcement

/// A delegate with ToggleServices can enable a service for an anchor.
#[test]
fn test_toggle_services_capability_allows_enable() {
    let (mut env, _admin) = init_env();
    let delegate = generate(2);
    let anchor = generate(3);
    AnchorKitContract::grant_capability(
        &mut env,
        delegate,
        AdminCapability::ToggleServices,
    ).unwrap();
    let changed = AnchorKitContract::enable_service(
        &mut env,
        delegate,
        anchor,
        SERVICE_DEPOSITS,
    ).unwrap();
    assert!(changed);
    assert!(AnchorKitContract::is_service_enabled(
        &env,
        anchor,
        SERVICE_DEPOSITS
    ));
}

/// An address without ToggleServices cannot enable a service.
#[test]
fn test_toggle_services_without_capability_panics() {
    let (mut env, _admin) = init_env();
    let stranger = generate(2);
    let anchor = generate(3);
    // stranger has no capability and is not admin — must fail.
    assert_eq!(
        AnchorKitContract::enable_service(
        &mut env,
        stranger,
        anchor,
        SERVICE_DEPOSITS,
    ),
        Err(ContractError::Code(ErrorCode::Unauthorized))
    );
}

// KYC capability enforcement

/// An address without ManageKyc or KycAdmin role cannot approve KYC.
#[test]
fn test_approve_kyc_without_capability_panics() {
    let (mut env, _admin) = init_env();
    let stranger = generate(2);
    let subject = generate(3);
    // No KYC record needed — authorization check fires before storage reads.
    assert_eq!(
        AnchorKitContract::approve_kyc(&mut env, stranger, subject),
        Err(ContractError::Code(ErrorCode::Unauthorized))
    );
}

// Role RBAC — unchanged behaviour check

/// grant_role / has_role work.
#[test]
fn test_grant_and_has_role() {
    let (mut env, _admin) = init_env();
    let delegate = generate(2);
    AnchorKitContract::grant_role(&mut env, delegate, AdminRole::CacheAdmin).unwrap();
    assert!(AnchorKitContract::has_role(&env, delegate, AdminRole::CacheAdmin));
}

/// revoke_role removes the role.
#[test]
fn test_revoke_role() {
    let (mut env, _admin) = init_env();
    let delegate = generate(2);
    AnchorKitContract::grant_role(&mut env, delegate, AdminRole::KycAdmin).unwrap();
    AnchorKitContract::revoke_role(&mut env, delegate, AdminRole::KycAdmin).unwrap();
    assert!(!AnchorKitContract::has_role(&env, delegate, AdminRole::KycAdmin));
}

#[test]
fn second_grants_and_empty_withdrawals_change_nothing() {
    let (mut env, _admin) = init_env();
    let who = generate(2);
    let sizes = |env: &Ledger| (env.admin_log.len(), env.events.len());
    AnchorKitContract::grant_role(&mut env, who, AdminRole::KycAdmin).unwrap();
    AnchorKitContract::grant_capability(&mut env, who, AdminCapability::ManageKyc).unwrap();
    let before = sizes(&env);
    AnchorKitContract::grant_role(&mut env, who, AdminRole::KycAdmin).unwrap();
    AnchorKitContract::grant_capability(&mut env, who, AdminCapability::ManageKyc).unwrap();
    AnchorKitContract::revoke_role(&mut env, who, AdminRole::CacheAdmin).unwrap();
    AnchorKitContract::revoke_capability(&mut env, who, AdminCapability::SetJwtConfig).unwrap();
    assert_eq!(sizes(&env), before);
    AnchorKitContract::revoke_role(&mut env, who, AdminRole::KycAdmin).unwrap();
    AnchorKitContract::revoke_capability(&mut env, who, AdminCapability::ManageKyc).unwrap();
    assert_eq!(sizes(&env), (before.0 + 2, before.1 + 2));
    assert!(!AnchorKitContract::has_role(&env, who, AdminRole::KycAdmin));
}
