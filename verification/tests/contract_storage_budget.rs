use anchorkit::address::Address;
use anchorkit::contract::ledger::{AnchorKitContract, ContractError, Ledger};
use anchorkit::contract::transactions::{entry_lifetime, EntryKind};
use anchorkit::contract::types::{
    APPROX_TXSTATE_RECORD_BYTES, DEFAULT_TXBUDGET_CRITICAL_BYTES, DEFAULT_TXBUDGET_WARNING_BYTES,
};
use anchorkit::errors::ErrorCode;
use anchorkit::transaction_state_tracker::TransactionState;

fn generate(n: u8) -> Address {
    Address::Contract([n; 32])
}

fn init_env() -> (Ledger, Address) {
    let mut env = Ledger::new(1_000, 10);
    env.mock_all_auths();
    let admin = generate(1);
    AnchorKitContract::initialize(&mut env, admin).unwrap();
    (env, admin)
}

#[test]
fn test_default_budget_report_starts_empty() {
    let (env, _admin) = init_env();
    let report = AnchorKitContract::get_storage_budget_report(&env);
    assert_eq!(report.entry_count, 0);
    assert_eq!(report.approx_bytes, 0);
    assert_eq!(report.warning_bytes, DEFAULT_TXBUDGET_WARNING_BYTES);
    assert_eq!(report.critical_bytes, DEFAULT_TXBUDGET_CRITICAL_BYTES);
    assert!(!report.warning);
    assert!(!report.critical);
}

#[test]
fn test_budget_report_tracks_entry_count_and_bytes() {
    let (mut env, _admin) = init_env();
    let initiator = generate(2);

    for i in 1..=3u64 {
        AnchorKitContract::create_transaction_record(&mut env, i, initiator);
    }

    let report = AnchorKitContract::get_storage_budget_report(&env);
    assert_eq!(report.entry_count, 3);
    assert_eq!(report.approx_bytes, 3 * APPROX_TXSTATE_RECORD_BYTES);
}

#[test]
fn test_set_storage_budget_thresholds_updates_report() {
    let (mut env, _admin) = init_env();
    let initiator = generate(2);

    // 2 entries * 256 bytes = 512 >= warning(500), < critical(1000).
    AnchorKitContract::set_storage_budget_thresholds(&mut env, 500, 1000).unwrap();
    AnchorKitContract::create_transaction_record(&mut env, 1, initiator);
    AnchorKitContract::create_transaction_record(&mut env, 2, initiator);

    let report = AnchorKitContract::get_storage_budget_report(&env);
    assert_eq!(report.warning_bytes, 500);
    assert_eq!(report.critical_bytes, 1000);
    assert!(report.warning, "512 bytes must cross the 500-byte warning threshold");
    assert!(!report.critical, "512 bytes must not cross the 1000-byte critical threshold");

    // 4 entries * 256 bytes = 1024 >= critical(1000).
    AnchorKitContract::create_transaction_record(&mut env, 3, initiator);
    AnchorKitContract::create_transaction_record(&mut env, 4, initiator);
    let report2 = AnchorKitContract::get_storage_budget_report(&env);
    assert!(report2.critical, "1024 bytes must cross the 1000-byte critical threshold");
}

#[test]
fn test_set_storage_budget_thresholds_rejects_zero_warning() {
    let (mut env, _admin) = init_env();
    assert_eq!(
        AnchorKitContract::set_storage_budget_thresholds(&mut env, 0, 1000),
        Err(ContractError::Code(ErrorCode::ValidationError))
    );
}

#[test]
fn test_set_storage_budget_thresholds_rejects_warning_not_below_critical() {
    let (mut env, _admin) = init_env();
    assert_eq!(
        AnchorKitContract::set_storage_budget_thresholds(&mut env, 1000, 1000),
        Err(ContractError::Code(ErrorCode::ValidationError))
    );
}

#[test]
fn test_eviction_ignored_when_no_pressure() {
    let (mut env, _admin) = init_env();
    let initiator = generate(2);

    // Thresholds stay at the generous defaults — nowhere near tripped by
    // a handful of small test records.
    AnchorKitContract::set_eviction_policy(&mut env, true, 10).unwrap();

    for i in 1..=3u64 {
        AnchorKitContract::create_transaction_record(&mut env, i, initiator);
        AnchorKitContract::start_transaction_record(&mut env, i).unwrap();
        AnchorKitContract::complete_transaction_record(&mut env, i).unwrap();
    }

    // A further create call must not have evicted anything: all terminal
    // records from before are still present, plus the new one.
    AnchorKitContract::create_transaction_record(&mut env, 4, initiator);
    let report = AnchorKitContract::get_storage_budget_report(&env);
    assert_eq!(report.entry_count, 4, "no eviction should occur without budget pressure");
}

#[test]
fn test_eviction_triggers_under_pressure() {
    let (mut env, _admin) = init_env();
    let initiator = generate(2);

    // A 1-byte warning threshold means any tracked record trips pressure.
    AnchorKitContract::set_storage_budget_thresholds(&mut env, 1, 1_000_000).unwrap();
    AnchorKitContract::set_eviction_policy(&mut env, true, 10).unwrap();

    for i in 1..=3u64 {
        AnchorKitContract::create_transaction_record(&mut env, i, initiator);
        AnchorKitContract::start_transaction_record(&mut env, i).unwrap();
        AnchorKitContract::complete_transaction_record(&mut env, i).unwrap();
    }

    // This call detects budget pressure and evicts the terminal records
    // created above before inserting the new one, so only the new record
    // (still Pending, not eviction-eligible) should remain.
    AnchorKitContract::create_transaction_record(&mut env, 4, initiator);
    let report = AnchorKitContract::get_storage_budget_report(&env);
    assert_eq!(report.entry_count, 1, "terminal records must be evicted under pressure");
}

#[test]
fn test_eviction_removes_lookup_for_evicted_record() {
    let (mut env, _admin) = init_env();
    let initiator = generate(2);

    AnchorKitContract::set_storage_budget_thresholds(&mut env, 1, 1_000_000).unwrap();
    AnchorKitContract::set_eviction_policy(&mut env, true, 10).unwrap();

    AnchorKitContract::create_transaction_record(&mut env, 1, initiator);
    AnchorKitContract::start_transaction_record(&mut env, 1).unwrap();
    AnchorKitContract::complete_transaction_record(&mut env, 1).unwrap();

    // Triggers eviction of the now-terminal record 1.
    AnchorKitContract::create_transaction_record(&mut env, 2, initiator);

    // Record 1 no longer exists — must fail.
    assert_eq!(
        AnchorKitContract::get_txn_state_history(&env, 1),
        Err(ContractError::Code(ErrorCode::AttestationNotFound))
    );
}

#[test]
fn an_id_is_listed_once() {
    let (mut env, _admin) = init_env();
    let initiator = generate(2);
    AnchorKitContract::create_transaction_record(&mut env, 7, initiator);
    AnchorKitContract::create_transaction_record(&mut env, 8, initiator);
    AnchorKitContract::create_transaction_record(&mut env, 7, generate(3));
    assert_eq!(env.transactions.ids, vec![7, 8]);
    let report = AnchorKitContract::get_storage_budget_report(&env);
    assert_eq!((report.entry_count, report.approx_bytes), (2, 2 * APPROX_TXSTATE_RECORD_BYTES));
    assert_eq!(env.transactions.records.get(&7).unwrap().initiator, generate(3));
}

#[test]
fn ended_transactions_live_shorter() {
    assert_eq!(entry_lifetime(EntryKind::Transaction(TransactionState::Pending)), 1_555_200);
    assert_eq!(entry_lifetime(EntryKind::Transaction(TransactionState::Completed)), 518_400);
    assert_eq!(entry_lifetime(EntryKind::Transaction(TransactionState::Failed)), 518_400);
    assert_eq!(entry_lifetime(EntryKind::Instance), 518_400);
    assert_eq!(entry_lifetime(EntryKind::Persistent), 1_555_200);
    assert_eq!(entry_lifetime(EntryKind::Span), 1_555_200);
    assert_eq!(entry_lifetime(EntryKind::Replay), 120_960);
}
