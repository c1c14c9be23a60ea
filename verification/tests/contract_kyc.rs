use anchorkit::address::Address;
use anchorkit::contract::health::DenialReason;
use anchorkit::contract::ledger::{AnchorKitContract, ContractError, Ledger};
use anchorkit::contract::types::{AdminRole, Bytes, CompliancePolicy, KycStatus};
use anchorkit::errors::ErrorCode;

fn generate(n: u8) -> Address {
    Address::Contract([n; 32])
}

fn code<T>(r: Result<T, ContractError>) -> Option<ErrorCode> {
    match r {
        Err(ContractError::Code(c)) => Some(c),
        _ => None,
    }
}

fn hash(n: u8) -> Bytes {
    Bytes::from_slice(&[n; 32])
}

fn setup() -> (Ledger, Address, Address, Address) {
    let mut env = Ledger::new(1_000_000, 10);
    env.mock_all_auths();
    AnchorKitContract::initialize(&mut env, generate(1)).unwrap();
    AnchorKitContract::set_sep10_jwt_verifying_key(&mut env, generate(9), hash(7)).unwrap();
    let attestor = generate(2);
    AnchorKitContract::register_attestor(&mut env, attestor, "t".to_string(), generate(9), [2; 32], true)
        .unwrap();
    (env, generate(1), attestor, generate(30))
}

#[test]
fn a_submission_is_pending_until_reviewed() {
    let (mut env, admin, attestor, subject) = setup();
    assert_eq!(AnchorKitContract::get_kyc_status(&env, subject), KycStatus::NotSubmitted);
    AnchorKitContract::submit_kyc(&mut env, subject, hash(4), attestor).unwrap();
    assert_eq!(AnchorKitContract::get_kyc_status(&env, subject), KycStatus::Pending);
    assert_eq!(AnchorKitContract::get_kyc_data_hash(&env, subject).unwrap().data, vec![4u8; 32]);
    AnchorKitContract::approve_kyc(&mut env, admin, subject).unwrap();
    assert_eq!(AnchorKitContract::get_kyc_status(&env, subject), KycStatus::Approved);
    assert_eq!(
        code(AnchorKitContract::approve_kyc(&mut env, admin, subject)),
        Some(ErrorCode::IllegalTransition)
    );
}

#[test]
fn approvals_run_out_after_thirty_days() {
    let (mut env, admin, attestor, subject) = setup();
    AnchorKitContract::submit_kyc(&mut env, subject, hash(4), attestor).unwrap();
    AnchorKitContract::approve_kyc(&mut env, admin, subject).unwrap();
    env.clock.timestamp = 1_000_000 + 2_592_000;
    assert_eq!(AnchorKitContract::get_kyc_status(&env, subject), KycStatus::Approved);
    env.clock.timestamp += 1;
    assert_eq!(AnchorKitContract::get_kyc_status(&env, subject), KycStatus::Expired);
}

#[test]
fn resubmission_waits_for_a_day_unless_reopened() {
    let (mut env, admin, attestor, subject) = setup();
    AnchorKitContract::submit_kyc(&mut env, subject, hash(4), attestor).unwrap();
    AnchorKitContract::reject_kyc(&mut env, admin, subject, hash(5)).unwrap();
    assert_eq!(AnchorKitContract::get_kyc_status(&env, subject), KycStatus::Rejected);
    env.clock.timestamp = 1_000_000 + 86_399;
    assert_eq!(
        code(AnchorKitContract::submit_kyc(&mut env, subject, hash(4), attestor)),
        Some(ErrorCode::ComplianceNotMet)
    );
    AnchorKitContract::reopen_kyc(&mut env, admin, subject).unwrap();
    assert_eq!(AnchorKitContract::get_kyc_status(&env, subject), KycStatus::Reopened);
    AnchorKitContract::submit_kyc(&mut env, subject, hash(6), attestor).unwrap();
    AnchorKitContract::reject_kyc(&mut env, admin, subject, hash(5)).unwrap();
    env.clock.timestamp += 86_400;
    AnchorKitContract::submit_kyc(&mut env, subject, hash(6), attestor).unwrap();
}

#[test]
fn reviews_need_the_role_and_a_record() {
    let (mut env, admin, _, subject) = setup();
    assert_eq!(
        code(AnchorKitContract::approve_kyc(&mut env, generate(44), subject)),
        Some(ErrorCode::Unauthorized)
    );
    AnchorKitContract::grant_role(&mut env, generate(44), AdminRole::KycAdmin).unwrap();
    assert_eq!(
        code(AnchorKitContract::approve_kyc(&mut env, generate(44), subject)),
        Some(ErrorCode::KycNotFound)
    );
    assert_eq!(
        code(AnchorKitContract::reject_kyc(&mut env, admin, subject, hash(1))),
        Some(ErrorCode::KycNotFound)
    );
}

#[test]
fn compliance_checks_are_kept_in_order() {
    let (mut env, _, _, subject) = setup();
    let kind = "kyc".to_string();
    for (i, passed) in [true, false, true].iter().enumerate() {
        env.clock.timestamp += 1;
        AnchorKitContract::record_compliance_check(
            &mut env,
            subject,
            kind.clone(),
            *passed,
            Some(i as u32),
        )
        .unwrap();
    }
    AnchorKitContract::record_compliance_check(&mut env, subject, "aml".to_string(), true, None).unwrap();
    let history = AnchorKitContract::get_compliance_check_history(&env, subject, kind.clone(), 2);
    assert_eq!(history.iter().map(|c| c.score).collect::<Vec<_>>(), vec![Some(1), Some(2)]);
    let latest = AnchorKitContract::get_latest_compliance_check(&env, subject, kind.clone()).unwrap();
    assert_eq!((latest.score, latest.result), (Some(2), 1));
    assert_eq!(
        AnchorKitContract::list_subject_compliance_checks(&env, subject),
        vec![kind, "aml".to_string()]
    );
}

#[test]
fn policies_deny_with_their_code() {
    let denied = |reason| code(AnchorKitContract::enforce_policy(Some(reason)));
    assert_eq!(AnchorKitContract::enforce_policy(None), Ok(()));
    assert_eq!(denied(DenialReason::KycPending), Some(ErrorCode::KycPending));
    assert_eq!(denied(DenialReason::KycRejected), Some(ErrorCode::KycRejected));
    assert_eq!(denied(DenialReason::KycNotSubmitted), Some(ErrorCode::KycNotFound));
    assert_eq!(denied(DenialReason::KycExpired), Some(ErrorCode::ComplianceNotMet));
    assert_eq!(denied(DenialReason::ComplianceCheckFailed), Some(ErrorCode::ComplianceNotMet));
    assert_eq!(denied(DenialReason::ScoreBelowMinimum), Some(ErrorCode::ComplianceNotMet));
}

#[test]
fn the_policy_sees_the_latest_check() {
    let (mut env, _, _, subject) = setup();
    AnchorKitContract::set_compliance_policy(&mut env, CompliancePolicy { minimum_score: Some(50) })
        .unwrap();
    assert_eq!(AnchorKitContract::get_compliance_policy(&env).minimum_score, Some(50));
    AnchorKitContract::record_compliance_check(&mut env, subject, "kyc".to_string(), true, Some(60)).unwrap();
    let context = AnchorKitContract::policy_context(&env, subject, true, true).unwrap();
    assert_eq!(context.kyc_state, KycStatus::NotSubmitted);
    assert_eq!(context.subject_score, Some(60));
    assert!(context.compliance_check_passed);
}
