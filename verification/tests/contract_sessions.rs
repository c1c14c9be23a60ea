use anchorkit::address::Address;
use anchorkit::contract::ledger::{AnchorKitContract, ContractError, Ledger};
use anchorkit::contract::types::DEFAULT_SESSION_TTL;
use anchorkit::errors::ErrorCode;
use anchorkit::migration;
use anchorkit::session_state_machine::SessionState;

fn generate(n: u8) -> Address {
    Address::Contract([n; 32])
}

fn init_env() -> (Ledger, Address) {
    let mut env = Ledger::new(1_000, 10);
    env.mock_all_auths();
    let admin = generate(1);
    AnchorKitContract::initialize(&mut env, admin).unwrap();
    (env, admin)
}

// Session state — initial state

#[test]
fn test_new_session_starts_in_created_state() {
    let (mut env, _admin) = init_env();
    let initiator = generate(2);
    let sid = AnchorKitContract::create_session(&mut env, initiator).unwrap();
    let raw = AnchorKitContract::get_session_state(&env, sid).unwrap();
    assert_eq!(raw, SessionState::Created as u32);
}

// Session state — close transitions

#[test]
fn test_close_session_transitions_to_closed() {
    let (mut env, _admin) = init_env();
    let initiator = generate(2);
    let sid = AnchorKitContract::create_session(&mut env, initiator).unwrap();
    AnchorKitContract::close_session(&mut env, sid, initiator).unwrap();
    let raw = AnchorKitContract::get_session_state(&env, sid).unwrap();
    assert_eq!(raw, SessionState::Closed as u32);
}

#[test]
fn test_close_already_closed_session_panics() {
    let (mut env, _admin) = init_env();
    let initiator = generate(2);
    let sid = AnchorKitContract::create_session(&mut env, initiator).unwrap();
    AnchorKitContract::close_session(&mut env, sid, initiator).unwrap();
    // Second close must fail with SessionClosed.
    assert_eq!(
        AnchorKitContract::close_session(&mut env, sid, initiator),
        Err(ContractError::Code(ErrorCode::SessionClosed))
    );
}

// Session state — expiry handling

#[test]
fn test_get_session_state_returns_expired_after_ttl() {
    let (mut env, _admin) = init_env();
    let initiator = generate(2);
    let sid = AnchorKitContract::create_session(&mut env, initiator).unwrap();

    // Advance ledger time past the default TTL (3600 s).
    env.clock.timestamp = env.clock.timestamp + DEFAULT_SESSION_TTL + 1;
    env.clock.sequence = env.clock.sequence + 1000;

    let raw = AnchorKitContract::get_session_state(&env, sid).unwrap();
    assert_eq!(raw, SessionState::Expired as u32);
}

#[test]
fn test_close_expired_session_panics() {
    let (mut env, _admin) = init_env();
    let initiator = generate(2);
    let sid = AnchorKitContract::create_session(&mut env, initiator).unwrap();

    env.clock.timestamp = env.clock.timestamp + DEFAULT_SESSION_TTL + 1;
    env.clock.sequence = env.clock.sequence + 1000;

    // Must fail with SessionExpired.
    assert_eq!(
        AnchorKitContract::close_session(&mut env, sid, initiator),
        Err(ContractError::Code(ErrorCode::SessionExpired))
    );
}

// Session state — non-owner cannot close

#[test]
fn test_non_owner_cannot_close_session() {
    let (mut env, _admin) = init_env();
    let initiator = generate(2);
    let stranger = generate(3);
    let sid = AnchorKitContract::create_session(&mut env, initiator).unwrap();
    assert_eq!(
        AnchorKitContract::close_session(&mut env, sid, stranger),
        Err(ContractError::Code(ErrorCode::UnauthorizedAttestor))
    );
}

// Migration — schema version after initialize

#[test]
fn test_schema_version_is_v1_after_init() {
    let (env, _admin) = init_env();
    assert_eq!(AnchorKitContract::get_schema_version(&env), migration::SCHEMA_V1);
    assert_eq!(migration::current_version(&env), migration::SCHEMA_V1);
}

// Migration — get_migration_count before any migration

#[test]
fn test_migration_count_zero_before_any_migration() {
    let (env, _admin) = init_env();
    assert_eq!(AnchorKitContract::get_migration_count(&env), 0);
}

// Migration — successful v1→v2 migration records history

#[test]
fn test_migrate_to_v2_records_history() {
    let (mut env, _admin) = init_env();
    AnchorKitContract::migrate(&mut env, migration::SCHEMA_V2, 100).unwrap();
    assert_eq!(AnchorKitContract::get_schema_version(&env), migration::SCHEMA_V2);
    assert_eq!(AnchorKitContract::get_migration_count(&env), 1);
    let rec = AnchorKitContract::get_migration_record(&env, 0).unwrap();
    assert_eq!(rec.from_version, migration::SCHEMA_V1);
    assert_eq!(rec.to_version, migration::SCHEMA_V2);
}

// Migration — reject version 0

#[test]
fn contract_test_migrate_version_zero_panics() {
    let (mut env, _admin) = init_env();
    assert_eq!(
        AnchorKitContract::migrate(&mut env, 0, 10),
        Err(ContractError::Code(ErrorCode::ValidationError))
    );
}

// Migration — reject non-advancing version

#[test]
fn test_migrate_same_version_panics() {
    let (mut env, _admin) = init_env();
    AnchorKitContract::migrate(&mut env, migration::SCHEMA_V2, 100).unwrap();
    // Re-running with the same target version must fail.
    assert_eq!(
        AnchorKitContract::migrate(&mut env, migration::SCHEMA_V2, 100),
        Err(ContractError::Code(ErrorCode::ValidationError))
    );
}

// Migration — reject version beyond LATEST_SCHEMA_VERSION

#[test]
fn test_migrate_beyond_latest_panics() {
    let (mut env, _admin) = init_env();
    assert_eq!(
        AnchorKitContract::migrate(&mut env, migration::LATEST_SCHEMA_VERSION + 1, 10),
        Err(ContractError::Code(ErrorCode::UnsupportedCapabilityVersion))
    );
}

// Migration — reject before init

#[test]
fn contract_test_migrate_before_init_panics() {
    let mut env = Ledger::new(1_000, 10);
    env.mock_all_auths();
    assert_eq!(
        AnchorKitContract::migrate(&mut env, migration::SCHEMA_V2, 10),
        Err(ContractError::Code(ErrorCode::NotInitialized))
    );
}

#[test]
fn audit_logs_can_be_pruned_and_exported() {
    let (mut env, admin) = init_env();
    let sid = AnchorKitContract::create_session(&mut env, admin).unwrap();
    for n in 0..3u8 {
        env.clock.timestamp = 1_000 + 10 * u64::from(n);
        AnchorKitContract::register_attestor_with_session(&mut env, admin, sid, generate(20 + n), [n; 32])
            .unwrap();
    }
    assert_eq!(AnchorKitContract::get_audit_logs_paginated(&env, 1, 1).len(), 1);
    assert_eq!(AnchorKitContract::get_audit_logs_paginated(&env, 1, 1)[0].log_id, 1);
    assert_eq!(AnchorKitContract::audit_logs_to_export(&env, 0, 2).len(), 2);
    assert_eq!(AnchorKitContract::prune_audit_logs(&mut env, 1_010), Ok(1));
    assert_eq!(
        AnchorKitContract::get_audit_log(&env, 0),
        Err(ContractError::Code(ErrorCode::AuditLogNotFound))
    );
    assert!(AnchorKitContract::get_audit_log(&env, 1).is_ok());
    assert_eq!(
        AnchorKitContract::set_audit_log_retention(&mut env, 3_651),
        Err(ContractError::Code(ErrorCode::ValidationError))
    );
    AnchorKitContract::set_audit_log_retention(&mut env, 3_650).unwrap();
    assert_eq!(AnchorKitContract::get_audit_log_retention(&env), 3_650);
}

#[test]
fn events_are_published_under_their_topic() {
    let (mut env, admin) = init_env();
    assert_eq!(env.events[0].topic_names(), ("contract", "init"));
    AnchorKitContract::create_session(&mut env, admin).unwrap();
    assert_eq!(env.events[1].topic_names(), ("session", "created"));
}

#[test]
fn the_admin_can_be_replaced() {
    let (mut env, admin) = init_env();
    let next = generate(9);
    assert_eq!(
        AnchorKitContract::accept_admin_transfer(&mut env),
        Err(ContractError::Code(ErrorCode::NotInitialized))
    );
    AnchorKitContract::propose_admin_transfer(&mut env, next).unwrap();
    assert_eq!(AnchorKitContract::get_admin(&env), Ok(admin));
    env.auth.all = false;
    env.auth.signers = vec![admin];
    assert_eq!(
        AnchorKitContract::accept_admin_transfer(&mut env),
        Err(ContractError::AuthRequired(next))
    );
    env.auth.signers = vec![next];
    AnchorKitContract::accept_admin_transfer(&mut env).unwrap();
    assert_eq!(AnchorKitContract::get_admin(&env), Ok(next));
}

#[test]
fn exports_are_lists_of_hexadecimal_strings() {
    assert_eq!(AnchorKitContract::export_audit_log_batch(&vec![]), "[]");
    assert_eq!(
        AnchorKitContract::export_audit_log_batch(&vec![vec![0x00, 0xff], vec![0x1a]]),
        "[\"00ff\",\"1a\"]"
    );
}

#[test]
fn entries_without_a_retention_are_kept() {
    let (mut env, admin) = init_env();
    let sid = AnchorKitContract::create_session(&mut env, admin).unwrap();
    for n in 0..3u8 {
        AnchorKitContract::register_attestor_with_session(&mut env, admin, sid, generate(20 + n), [n; 32])
            .unwrap();
    }
    AnchorKitContract::set_auto_prune_threshold(&mut env, 1).unwrap();
    env.clock.timestamp = 200_000;
    // No retention: nothing is pruned, however old.
    let events = env.events.len();
    assert_eq!(AnchorKitContract::get_audit_log_count(&mut env), 3);
    assert!(AnchorKitContract::get_audit_log(&env, 0).is_ok());
    AnchorKitContract::set_audit_log_retention(&mut env, 0).unwrap();
    assert_eq!(AnchorKitContract::get_audit_log_count(&mut env), 3);
    assert!(AnchorKitContract::get_audit_log(&env, 0).is_ok());
    assert_eq!(env.events.len(), events);
    // A day: entries that are older go.
    AnchorKitContract::set_audit_log_retention(&mut env, 1).unwrap();
    assert_eq!(AnchorKitContract::get_audit_log_count(&mut env), 3);
    assert!(AnchorKitContract::get_audit_log(&env, 0).is_err());
    assert_eq!(env.events.len(), events + 1);
}

#[test]
fn a_closed_session_expires_with_its_lifetime() {
    let (mut env, admin) = init_env();
    let sid = AnchorKitContract::create_session(&mut env, admin).unwrap();
    AnchorKitContract::close_session(&mut env, sid, admin).unwrap();
    env.clock.timestamp += DEFAULT_SESSION_TTL;
    assert_eq!(AnchorKitContract::get_session_state(&env, sid), Ok(3));
    env.clock.timestamp += 1;
    assert_eq!(AnchorKitContract::get_session_state(&env, sid), Ok(4));
    // Its record still says that it was closed.
    assert_eq!(AnchorKitContract::get_session(&env, sid).unwrap().state, 3);
}
