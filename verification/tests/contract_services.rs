use anchorkit::address::Address;
use anchorkit::contract::ledger::{AnchorKitContract, ContractError, Ledger};
use anchorkit::contract::services::sort_services;
use anchorkit::contract::types::{AdminCapability, Bytes, ServiceRetirementInfo};
use anchorkit::errors::ErrorCode;
use anchorkit::service_management::ServiceToggleState;

fn generate(n: u8) -> Address {
    Address::Contract([n; 32])
}

fn code<T>(r: Result<T, ContractError>) -> Option<ErrorCode> {
    match r {
        Err(ContractError::Code(c)) => Some(c),
        _ => None,
    }
}

fn setup() -> (Ledger, Address, Address) {
    let mut env = Ledger::new(1_000, 10);
    env.mock_all_auths();
    let admin = generate(1);
    AnchorKitContract::initialize(&mut env, admin).unwrap();
    AnchorKitContract::set_sep10_jwt_verifying_key(&mut env, generate(9), Bytes::from_slice(&[7u8; 32]))
        .unwrap();
    let anchor = generate(2);
    AnchorKitContract::register_attestor(&mut env, anchor, "t".to_string(), generate(9), [2; 32], true)
        .unwrap();
    (env, admin, anchor)
}

#[test]
fn services_are_stored_in_order() {
    let (mut env, _, anchor) = setup();
    assert_eq!(sort_services(&vec![5, 1, 3]), vec![1, 3, 5]);
    assert_eq!(sort_services(&vec![3, 1, 3, 2, 1]), vec![1, 1, 2, 3, 3]);
    assert!(sort_services(&vec![]).is_empty());
    AnchorKitContract::configure_services(&mut env, anchor, vec![5, 1, 3]).unwrap();
    let s = AnchorKitContract::get_supported_services(&env, anchor).unwrap();
    assert_eq!(s.services, vec![1, 3, 5]);
    assert_eq!(AnchorKitContract::get_service_capability_version(&env, anchor), Ok(1));
    assert!(AnchorKitContract::supports_service(&env, anchor, 3));
    assert!(!AnchorKitContract::supports_service(&env, anchor, 2));
    assert!(!AnchorKitContract::supports_service(&env, generate(50), 3));
}

#[test]
fn service_lists_are_checked() {
    let (mut env, _, anchor) = setup();
    for bad in [vec![], vec![0], vec![6], vec![1, 1]] {
        assert_eq!(
            code(AnchorKitContract::configure_services(&mut env, anchor, bad)),
            Some(ErrorCode::InvalidServiceType)
        );
    }
    assert_eq!(
        code(AnchorKitContract::configure_services(&mut env, generate(50), vec![1])),
        Some(ErrorCode::AttestorNotRegistered)
    );
    assert_eq!(
        code(AnchorKitContract::configure_services_versioned(&mut env, anchor, vec![1], vec![], 2)),
        Some(ErrorCode::UnsupportedCapabilityVersion)
    );
    assert_eq!(
        code(AnchorKitContract::get_supported_services(&env, anchor)),
        Some(ErrorCode::ServicesNotConfigured)
    );
}

#[test]
fn retired_services_are_not_active() {
    let (mut env, _, anchor) = setup();
    AnchorKitContract::configure_services(&mut env, anchor, vec![1, 2, 3]).unwrap();
    AnchorKitContract::retire_service(&mut env, anchor, 2, Some(2_000), Some("soon".to_string())).unwrap();
    assert_eq!(AnchorKitContract::get_active_services(&env, anchor), Ok(vec![1, 3]));
    assert!(!AnchorKitContract::supports_service(&env, anchor, 2));
    assert_eq!(
        AnchorKitContract::get_service_retirement_info(&env, anchor, 2),
        Ok(Some(ServiceRetirementInfo {
            service_code: 2,
            retired: true,
            retirement_timestamp: Some(2_000),
            deprecation_notice: Some("soon".to_string()),
        }))
    );
    AnchorKitContract::unretire_service(&mut env, anchor, 2).unwrap();
    assert_eq!(AnchorKitContract::get_active_services(&env, anchor), Ok(vec![1, 2, 3]));
}

#[test]
fn switching_a_service_takes_effect() {
    let (mut env, admin, anchor) = setup();
    assert_eq!(AnchorKitContract::enable_service(&mut env, admin, anchor, 1), Ok(true));
    assert!(AnchorKitContract::is_service_enabled(&env, anchor, 1));
    assert_eq!(AnchorKitContract::disable_service(&mut env, admin, anchor, 1), Ok(true));
    assert!(!AnchorKitContract::is_service_enabled(&env, anchor, 1));
    let outsider = generate(60);
    assert_eq!(
        code(AnchorKitContract::enable_service(&mut env, outsider, anchor, 1)),
        Some(ErrorCode::Unauthorized)
    );
    AnchorKitContract::grant_capability(&mut env, outsider, AdminCapability::ToggleServices).unwrap();
    assert_eq!(AnchorKitContract::enable_service(&mut env, outsider, anchor, 1), Ok(true));
}

#[test]
fn a_rollback_restores_a_snapshot() {
    let (mut env, admin, anchor) = setup();
    let id = AnchorKitContract::snapshot_services(
        &mut env,
        admin,
        anchor,
        vec![1, 3],
        "before".to_string(),
    )
    .unwrap();
    assert_eq!(AnchorKitContract::get_service_snapshot_count(&env), 1);
    assert_eq!(AnchorKitContract::get_service_snapshot(&env, id).unwrap().services, vec![1, 3]);
    AnchorKitContract::disable_service(&mut env, admin, anchor, 1).unwrap();
    assert_eq!(AnchorKitContract::rollback_services(&mut env, admin, id), Ok(true));
    assert!(AnchorKitContract::is_service_enabled(&env, anchor, 1));
    assert!(AnchorKitContract::is_service_enabled(&env, anchor, 3));
    assert_eq!(AnchorKitContract::rollback_services(&mut env, admin, id + 1), Ok(false));
}

#[test]
fn a_code_is_never_both_enabled_and_disabled() {
    let mut s = ServiceToggleState::new();
    s.enable(4);
    s.disable(4);
    assert_eq!((s.enabled_services.len(), s.disabled_services), (0, vec![4]));
    let mut s = ServiceToggleState::new();
    s.disable(4);
    s.enable(4);
    assert_eq!((s.enabled_services, s.disabled_services.len()), (vec![4], 0));
}
