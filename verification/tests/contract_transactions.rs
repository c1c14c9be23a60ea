use anchorkit::address::Address;
use anchorkit::contract::ledger::{AnchorKitContract, ContractError, Ledger};
use anchorkit::errors::ErrorCode;
use anchorkit::session_state_machine::{is_legal_transition, validate_transition, SessionState};
use anchorkit::transaction_state_tracker::TransactionState;

fn generate(n: u8) -> Address {
    Address::Contract([n; 32])
}

fn code<T>(r: Result<T, ContractError>) -> Option<ErrorCode> {
    match r {
        Err(ContractError::Code(c)) => Some(c),
        _ => None,
    }
}

fn setup() -> (Ledger, Address) {
    let mut env = Ledger::new(1_000, 10);
    env.mock_all_auths();
    AnchorKitContract::initialize(&mut env, generate(1)).unwrap();
    (env, generate(2))
}

#[test]
fn transactions_advance_and_keep_their_history() {
    let (mut env, who) = setup();
    AnchorKitContract::create_transaction_record(&mut env, 1, who);
    env.clock.timestamp = 1_010;
    AnchorKitContract::start_transaction_record(&mut env, 1).unwrap();
    env.clock.timestamp = 1_020;
    let done = AnchorKitContract::complete_transaction_record(&mut env, 1).unwrap();
    assert_eq!((done.state, done.last_updated), (TransactionState::Completed, 1_020));
    assert_eq!(
        AnchorKitContract::get_txn_state_history(&env, 1),
        Ok(vec![
            (TransactionState::Pending, 1_000),
            (TransactionState::InProgress, 1_010),
            (TransactionState::Completed, 1_020),
        ])
    );
    assert_eq!(
        code(AnchorKitContract::fail_transaction_record(&mut env, 1, "late".to_string())),
        Some(ErrorCode::IllegalTransition)
    );
    assert_eq!(
        code(AnchorKitContract::start_transaction_record(&mut env, 2)),
        Some(ErrorCode::TransactionNotFound)
    );
}

#[test]
fn reasons_stay_with_the_transaction() {
    let (mut env, who) = setup();
    AnchorKitContract::create_txn_record_with_reason(&mut env, 1, who, Some("cheap".to_string()));
    AnchorKitContract::start_transaction_record(&mut env, 1).unwrap();
    let failed = AnchorKitContract::fail_transaction_record(&mut env, 1, "no funds".to_string()).unwrap();
    assert_eq!(failed.routing_reason, Some("cheap".to_string()));
    assert_eq!(failed.error_message, Some("no funds".to_string()));
}

#[test]
fn ranges_are_bounded() {
    let (mut env, who) = setup();
    for id in 1..=5 {
        AnchorKitContract::create_transaction_record(&mut env, id, who);
    }
    let ids = |env: &Ledger, from, to, limit| {
        AnchorKitContract::get_transactions_in_range(env, from, to, limit)
            .iter()
            .map(|r| r.transaction_id)
            .collect::<Vec<u64>>()
    };
    assert_eq!(ids(&env, 2, 4, 10), vec![2, 3, 4]);
    assert_eq!(ids(&env, 2, 4, 2), vec![2, 3]);
    assert_eq!(ids(&env, 4, 2, 10), Vec::<u64>::new());
    AnchorKitContract::start_transaction_record(&mut env, 1).unwrap();
    let s = AnchorKitContract::summarize_transactions_by_status(&env);
    assert_eq!((s.pending_count, s.in_progress_count, s.total_count), (4, 1, 5));
}

#[test]
fn sessions_end_for_good() {
    for end in [SessionState::Closed, SessionState::Expired, SessionState::Exhausted] {
        for next in [
            SessionState::Created,
            SessionState::Active,
            SessionState::Closed,
            SessionState::Expired,
            SessionState::Exhausted,
        ] {
            if next != end {
                assert!(!is_legal_transition(end, next));
                assert!(validate_transition(end, next).is_err());
            }
        }
    }
    assert!(is_legal_transition(SessionState::Created, SessionState::Active));
}

#[test]
fn evictions_take_the_oldest_ended_first() {
    let (mut env, who) = setup();
    // Four records of 256 bytes reach the warning level.
    AnchorKitContract::set_storage_budget_thresholds(&mut env, 1_024, 100_000).unwrap();
    AnchorKitContract::set_eviction_policy(&mut env, true, 1).unwrap();
    for id in 1..=4u64 {
        env.clock.timestamp = 1_000 + id;
        AnchorKitContract::create_transaction_record(&mut env, id, who);
    }
    for id in [3u64, 2] {
        AnchorKitContract::start_transaction_record(&mut env, id).unwrap();
        AnchorKitContract::complete_transaction_record(&mut env, id).unwrap();
    }
    AnchorKitContract::create_transaction_record(&mut env, 5, who);
    // Of the two that have ended, the second was created first.
    assert_eq!(env.transactions.ids, vec![1, 3, 4, 5]);
    assert!(!env.transactions.records.has(&2));
    let report = AnchorKitContract::get_storage_budget_report(&env);
    assert_eq!((report.entry_count, report.approx_bytes, report.warning), (4, 1_024, true));
    let s = AnchorKitContract::summarize_transactions_by_status(&env);
    assert_eq!((s.total_count, s.completed_count), (4, 1));
}
