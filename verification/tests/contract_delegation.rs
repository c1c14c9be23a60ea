use anchorkit::address::Address;
use anchorkit::contract::ledger::{AnchorKitContract, ContractError, Ledger};
use anchorkit::contract::types::{AdminCapability, AdminRole, AnchorMetadata, Bytes};
use anchorkit::errors::ErrorCode;

fn generate(n: u8) -> Address {
    Address::Contract([n; 32])
}

/// A ledger on which only `signer` signs.
fn signed_by(signer: Address, role: Option<AdminRole>, cap: Option<AdminCapability>) -> Ledger {
    let mut env = Ledger::new(1_000, 10);
    env.mock_all_auths();
    AnchorKitContract::initialize(&mut env, generate(1)).unwrap();
    if let Some(role) = role {
        AnchorKitContract::grant_role(&mut env, generate(7), role).unwrap();
    }
    if let Some(cap) = cap {
        AnchorKitContract::grant_capability(&mut env, generate(7), cap).unwrap();
    }
    env.auth.all = false;
    env.auth.signers = vec![signer];
    env
}

fn metadata(anchor: Address) -> AnchorMetadata {
    AnchorMetadata {
        anchor,
        reputation_score: 80,
        liquidity_score: 70,
        uptime_percentage: 9_900,
        total_volume: 5,
        average_settlement_time: 30,
        is_active: true,
    }
}

#[test]
fn cache_admins_may_fill_the_cache() {
    let a = generate(2);
    let admin = Err(ContractError::AuthRequired(generate(1)));
    let mut env = signed_by(generate(7), None, None);
    assert_eq!(AnchorKitContract::cache_metadata(&mut env, a, metadata(a), 100), admin);
    let mut env = signed_by(generate(7), Some(AdminRole::KycAdmin), None);
    assert_eq!(AnchorKitContract::cache_metadata(&mut env, a, metadata(a), 100), admin);
    let mut env = signed_by(generate(7), Some(AdminRole::CacheAdmin), None);
    assert_eq!(AnchorKitContract::cache_metadata(&mut env, a, metadata(a), 100), Ok(()));
    let mut env = signed_by(generate(7), None, Some(AdminCapability::ManageCacheEntries));
    assert_eq!(AnchorKitContract::cache_metadata(&mut env, a, metadata(a), 100), Ok(()));
    assert_eq!(AnchorKitContract::compact_cache(&mut env, &vec![a]), Ok(0));
    let mut env = signed_by(generate(1), None, None);
    assert_eq!(AnchorKitContract::cache_metadata(&mut env, a, metadata(a), 100), Ok(()));
}

#[test]
fn capabilities_cover_their_duty_and_no_other() {
    let mut env = signed_by(generate(7), None, Some(AdminCapability::SetJwtConfig));
    assert_eq!(AnchorKitContract::set_jwt_skew(&mut env, 30), Ok(()));
    assert_eq!(
        AnchorKitContract::set_anchor_metadata(&mut env, generate(2), 1, 1, 1, 1, 1),
        Err(ContractError::AuthRequired(generate(1)))
    );
    let mut env = signed_by(generate(7), None, Some(AdminCapability::ManageAnchorMetadata));
    assert_eq!(AnchorKitContract::set_anchor_metadata(&mut env, generate(2), 1, 1, 1, 1, 1), Ok(()));
    let mut env = signed_by(generate(7), None, Some(AdminCapability::MigrateSchema));
    assert_eq!(AnchorKitContract::migrate(&mut env, 2, 10), Ok(()));
    let mut env = signed_by(generate(7), None, Some(AdminCapability::UpgradeContract));
    assert_eq!(AnchorKitContract::upgrade(&mut env, [3; 32]), Ok(()));
    assert_eq!(AnchorKitContract::get_version(&env).patch, 1);
}

#[test]
fn attestor_admins_keep_the_register() {
    let mut env = signed_by(generate(7), Some(AdminRole::AttestorAdmin), None);
    env.auth.signers.push(generate(1));
    AnchorKitContract::set_sep10_jwt_verifying_key(&mut env, generate(9), Bytes::from_slice(&[7; 32]))
        .unwrap();
    env.auth.signers = vec![generate(7)];
    let a = generate(2);
    AnchorKitContract::register_attestor(&mut env, a, "t".to_string(), generate(9), [2; 32], true).unwrap();
    AnchorKitContract::revoke_attestor(&mut env, a).unwrap();
    AnchorKitContract::reactivate_attestor(&mut env, a).unwrap();
    assert!(AnchorKitContract::is_attestor(&env, a));
    env.auth.signers = vec![generate(8)];
    assert_eq!(
        AnchorKitContract::revoke_attestor(&mut env, a),
        Err(ContractError::Code(ErrorCode::UnauthorizedAttestor))
    );
    assert_eq!(
        AnchorKitContract::register_attestor(
            &mut env,
            generate(3),
            "t".to_string(),
            generate(9),
            [3; 32],
            true
        ),
        Err(ContractError::Code(ErrorCode::UnauthorizedAttestor))
    );
    // One who was granted the role may register itself, if it signs.
    assert_eq!(
        AnchorKitContract::register_attestor(
            &mut env,
            generate(7),
            "t".to_string(),
            generate(9),
            [7; 32],
            true
        ),
        Err(ContractError::Code(ErrorCode::UnauthorizedAttestor))
    );
    env.auth.signers = vec![generate(7)];
    assert_eq!(
        AnchorKitContract::register_attestor(
            &mut env,
            generate(7),
            "t".to_string(),
            generate(9),
            [7; 32],
            true
        ),
        Ok(())
    );
}

#[test]
fn a_contract_without_admin_delegates_nothing() {
    let mut env = Ledger::new(1_000, 10);
    env.mock_all_auths();
    assert_eq!(
        AnchorKitContract::set_jwt_skew(&mut env, 30),
        Err(ContractError::Code(ErrorCode::NotInitialized))
    );
}
