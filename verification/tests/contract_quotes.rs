use anchorkit::address::Address;
use anchorkit::contract::events::Event;
use anchorkit::contract::ledger::{AnchorKitContract, ContractError, Ledger};
use anchorkit::contract::quotes::{
    validate_amount_limits, validate_asset_info, validate_currency_code, validate_fee_percent,
};
use anchorkit::contract::types::{AssetInfo, QuoteLifecycleState, QuoteV1, MAX_QUOTE_VALIDITY_SECONDS};
use anchorkit::errors::ErrorCode;

fn generate(n: u8) -> Address {
    Address::Contract([n; 32])
}

fn setup() -> (Ledger, Address, Address) {
    let mut env = Ledger::new(1_000, 10);
    env.mock_all_auths();
    AnchorKitContract::initialize(&mut env, generate(1)).unwrap();
    let anchor = generate(2);
    register(&mut env, anchor);
    AnchorKitContract::configure_services(&mut env, anchor, vec![3]).unwrap();
    (env, generate(1), anchor)
}

fn register(env: &mut Ledger, attestor: Address) {
    AnchorKitContract::set_sep10_jwt_verifying_key(env, generate(9), anchorkit::contract::types::Bytes::from_slice(&[7u8; 32])).unwrap();
    AnchorKitContract::register_attestor(
        env,
        attestor,
        "token".to_string(),
        generate(9),
        [5u8; 32],
        true,
    )
    .unwrap();
}

fn code<T>(r: Result<T, ContractError>) -> Option<ErrorCode> {
    match r {
        Err(ContractError::Code(c)) => Some(c),
        _ => None,
    }
}

fn quote(env: &mut Ledger, anchor: Address, valid_until: u64) -> u64 {
    AnchorKitContract::submit_quote(
        env,
        anchor,
        "USD".to_string(),
        "EUR".to_string(),
        90,
        25,
        10,
        1_000,
        valid_until,
    )
    .unwrap()
}

fn asset() -> AssetInfo {
    AssetInfo {
        code: "USDC".to_string(),
        issuer: "G".to_string(),
        deposit_enabled: true,
        withdrawal_enabled: true,
        deposit_fee_fixed: 1,
        deposit_fee_percent: 10_000,
        withdrawal_fee_fixed: 2,
        withdrawal_fee_percent: 0,
        deposit_min_amount: 5,
        deposit_max_amount: 5,
        withdrawal_min_amount: 7,
        withdrawal_max_amount: 0,
    }
}

#[test]
fn fees_are_capped_at_ten_thousand() {
    assert_eq!(validate_fee_percent(10_000), Ok(()));
    assert_eq!(code(validate_fee_percent(10_001)), Some(ErrorCode::InvalidQuote));
}

#[test]
fn a_zero_maximum_means_no_limit() {
    assert_eq!(validate_amount_limits(9, 0), Ok(()));
    assert_eq!(validate_amount_limits(9, 9), Ok(()));
    assert_eq!(code(validate_amount_limits(9, 8)), Some(ErrorCode::InvalidQuote));
}

#[test]
fn currency_codes_are_one_to_twelve_letters_or_digits() {
    assert_eq!(validate_currency_code(&"X".to_string()), Ok(()));
    assert_eq!(validate_currency_code(&"abcXYZ012345".to_string()), Ok(()));
    for bad in ["", "abcXYZ0123456", "US-D", "EU R", "é"] {
        assert_eq!(
            code(validate_currency_code(&bad.to_string())),
            Some(ErrorCode::InvalidAssetCode)
        );
    }
}

#[test]
fn assets_are_checked_field_by_field() {
    assert_eq!(validate_asset_info(&asset()), Ok(()));
    let mut a = asset();
    a.code = "US$".to_string();
    assert_eq!(code(validate_asset_info(&a)), Some(ErrorCode::InvalidAssetCode));
    let mut a = asset();
    a.deposit_fee_percent = 10_001;
    assert_eq!(code(validate_asset_info(&a)), Some(ErrorCode::InvalidQuote));
    let mut a = asset();
    a.withdrawal_fee_percent = 10_001;
    assert_eq!(code(validate_asset_info(&a)), Some(ErrorCode::InvalidQuote));
    let mut a = asset();
    a.deposit_min_amount = 6;
    assert_eq!(code(validate_asset_info(&a)), Some(ErrorCode::InvalidQuote));
    let mut a = asset();
    a.withdrawal_max_amount = 6;
    assert_eq!(code(validate_asset_info(&a)), Some(ErrorCode::InvalidQuote));
}

#[test]
fn a_submitted_quote_reads_back() {
    let (mut env, _, anchor) = setup();
    let id = quote(&mut env, anchor, 2_000);
    assert_eq!(id, 1);
    let q = AnchorKitContract::get_quote(&env, anchor, id).unwrap();
    assert_eq!((q.rate, q.fee_percentage, q.minimum_amount, q.maximum_amount), (90, 25, 10, 1_000));
    assert_eq!((q.base_asset.as_str(), q.quote_asset.as_str()), ("USD", "EUR"));
    assert_eq!(q.routing_reason, None);
    assert_eq!(
        AnchorKitContract::get_quote_lifecycle_state(&env, anchor, id),
        QuoteLifecycleState::Active
    );
    assert_eq!(quote(&mut env, anchor, 2_000), 2);
    assert_eq!(code(AnchorKitContract::get_quote(&env, anchor, 3)), Some(ErrorCode::QuoteNotFound));
}

#[test]
fn quotes_may_run_for_thirty_days_and_no_longer() {
    let (mut env, _, anchor) = setup();
    quote(&mut env, anchor, 1_000 + MAX_QUOTE_VALIDITY_SECONDS);
    for until in [1_000, 1_001 + MAX_QUOTE_VALIDITY_SECONDS] {
        let r = AnchorKitContract::submit_quote(
            &mut env,
            anchor,
            "USD".to_string(),
            "EUR".to_string(),
            90,
            25,
            10,
            1_000,
            until,
        );
        assert_eq!(code(r), Some(ErrorCode::InvalidQuote));
    }
}

#[test]
fn the_reason_of_a_quote_is_kept() {
    let (mut env, _, anchor) = setup();
    let id = AnchorKitContract::submit_quote_with_reason(
        &mut env,
        anchor,
        "USD".to_string(),
        "EUR".to_string(),
        90,
        25,
        10,
        0,
        2_000,
        Some("cheapest".to_string()),
    )
    .unwrap();
    assert_eq!(
        AnchorKitContract::get_quote_routing_reason(&env, anchor, id),
        Some("cheapest".to_string())
    );
    assert_eq!(AnchorKitContract::get_quote_routing_reason(&env, anchor, id + 1), None);
}

#[test]
fn receiving_hands_the_quote_over() {
    let (mut env, _, anchor) = setup();
    let id = quote(&mut env, anchor, 2_000);
    let q = AnchorKitContract::receive_quote(&mut env, generate(4), anchor, id).unwrap();
    assert_eq!((q.quote_id, q.anchor, q.rate), (id, anchor, 90));
    assert!(matches!(env.events.last(), Some(Event::QuoteReceived(e)) if e.receiver == generate(4)));
    assert_eq!(
        code(AnchorKitContract::receive_quote(&mut env, generate(4), anchor, 7)),
        Some(ErrorCode::QuoteNotFound)
    );
}

#[test]
fn invalidated_quotes_are_not_received() {
    let (mut env, _, anchor) = setup();
    let id = quote(&mut env, anchor, 2_000);
    AnchorKitContract::invalidate_quote(&mut env, anchor, id).unwrap();
    assert_eq!(
        AnchorKitContract::get_quote_lifecycle_state(&env, anchor, id),
        QuoteLifecycleState::Invalidated
    );
    assert_eq!(
        code(AnchorKitContract::receive_quote(&mut env, generate(4), anchor, id)),
        Some(ErrorCode::InvalidQuote)
    );
}

#[test]
fn purging_keeps_live_quotes_and_their_order() {
    let (mut env, _, anchor) = setup();
    let a = quote(&mut env, anchor, 5_000);
    let b = quote(&mut env, anchor, 2_000);
    let c = quote(&mut env, anchor, 6_000);
    let d = quote(&mut env, anchor, 7_000);
    AnchorKitContract::invalidate_quote(&mut env, anchor, c).unwrap();
    env.clock.timestamp = 3_000;
    AnchorKitContract::purge_expired_quotes(&mut env).unwrap();
    assert_eq!(env.quotes.index, vec![a, d]);
    // The records stay for the audit trail.
    assert!(AnchorKitContract::get_quote(&env, anchor, b).is_ok());
}

#[test]
fn accepting_can_ask_for_compliance() {
    let (mut env, _, anchor) = setup();
    let id = quote(&mut env, anchor, 2_000);
    let who = generate(4);
    assert_eq!(
        code(AnchorKitContract::accept_quote_with_compliance(&mut env, who, anchor, id, true)),
        Some(ErrorCode::ComplianceNotMet)
    );
    assert!(AnchorKitContract::accept_quote_with_compliance(&mut env, who, anchor, id, false).is_ok());
    assert!(matches!(env.events.last(), Some(Event::QuoteAccepted(e)) if e.quote_id == id));
    env.clock.timestamp = 2_000;
    assert_eq!(
        code(AnchorKitContract::accept_quote_with_compliance(&mut env, who, anchor, id, false)),
        Some(ErrorCode::QuoteExpired)
    );
    assert!(!matches!(env.events.last(), Some(Event::QuoteExpired(_))));
    AnchorKitContract::note_quote_expired(&mut env, anchor, id);
    assert!(matches!(env.events.last(), Some(Event::QuoteExpired(e)) if e.valid_until == 2_000));
    let events = env.events.len();
    AnchorKitContract::note_quote_expired(&mut env, anchor, id + 1);
    assert_eq!(env.events.len(), events);
}

#[test]
fn migrating_in_batches_reaches_every_quote() {
    let (mut env, _, anchor) = setup();
    for id in 1..=5u64 {
        env.quotes.legacy.set(
            (anchor, id),
            QuoteV1 {
                quote_id: id,
                anchor,
                base_asset: "USD".to_string(),
                quote_asset: "EUR".to_string(),
                rate: id,
                fee_percentage: 1,
                minimum_amount: 1,
                maximum_amount: 2,
                valid_until: 9_000,
                schema_version: 1,
            },
        );
        env.quotes.index.push(id);
        env.quotes.anchors.set(id, anchor);
    }
    for _ in 0..3 {
        AnchorKitContract::migrate(&mut env, 2, 2).unwrap();
    }
    for id in 1..=5u64 {
        let q = AnchorKitContract::get_quote(&env, anchor, id).unwrap();
        assert_eq!((q.schema_version, q.rate, q.routing_reason), (2, id, None));
    }
    assert_eq!(AnchorKitContract::get_schema_version(&env), 2);
}

#[test]
fn invalidated_quotes_are_not_accepted() {
    let (mut env, _, anchor) = setup();
    let id = quote(&mut env, anchor, 2_000);
    AnchorKitContract::invalidate_quote(&mut env, anchor, id).unwrap();
    assert_eq!(
        code(AnchorKitContract::accept_quote_with_compliance(&mut env, generate(4), anchor, id, false)),
        Some(ErrorCode::InvalidQuote)
    );
}
