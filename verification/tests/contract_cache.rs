use anchorkit::address::Address;
use anchorkit::cache_governance;
use anchorkit::cache_governance::{CacheEntryType, CacheGovernanceConfig, CachePolicy, CachePolicySet};
use anchorkit::contract::ledger::{AnchorKitContract, ContractError, Ledger};
use anchorkit::contract::types::{
    AnchorMetadata, AssetInfo, Bytes, CapacityConfig, MetadataCacheState, RefreshStatus, StellarToml,
};
use anchorkit::errors::{AnchorKitError, ErrorCode};
use anchorkit::structured_log::{FieldValue, StructuredLogger};

fn generate(n: u8) -> Address {
    Address::Contract([n; 32])
}

fn code<T>(r: Result<T, ContractError>) -> Option<ErrorCode> {
    match r {
        Err(ContractError::Code(c)) => Some(c),
        _ => None,
    }
}

fn setup() -> (Ledger, Address, Address) {
    let mut env = Ledger::new(1_000, 10);
    env.mock_all_auths();
    AnchorKitContract::initialize(&mut env, generate(1)).unwrap();
    (env, generate(1), generate(2))
}

fn attestor(env: &mut Ledger, who: Address) {
    AnchorKitContract::set_sep10_jwt_verifying_key(env, generate(9), Bytes::from_slice(&[7; 32])).unwrap();
    AnchorKitContract::register_attestor(env, who, "t".to_string(), generate(9), [2; 32], true).unwrap();
}

fn metadata(anchor: Address) -> AnchorMetadata {
    AnchorMetadata {
        anchor,
        reputation_score: 80,
        liquidity_score: 70,
        uptime_percentage: 9_900,
        total_volume: 5,
        average_settlement_time: 30,
        is_active: true,
    }
}

#[test]
fn cached_metadata_reads_back_until_it_expires() {
    let (mut env, _, a) = setup();
    assert_eq!(code(AnchorKitContract::get_cached_metadata(&env, a)), Some(ErrorCode::CacheNotFound));
    AnchorKitContract::cache_metadata(&mut env, a, metadata(a), 100).unwrap();
    assert_eq!(AnchorKitContract::get_cached_metadata(&env, a), Ok(metadata(a)));
    env.clock.timestamp = 1_099;
    assert_eq!(AnchorKitContract::get_cached_metadata(&env, a), Ok(metadata(a)));
    env.clock.timestamp = 1_100;
    assert_eq!(code(AnchorKitContract::get_cached_metadata(&env, a)), Some(ErrorCode::CacheExpired));
}

#[test]
fn metadata_is_served_stale_while_it_is_refreshed() {
    let (mut env, _, a) = setup();
    assert_eq!(AnchorKitContract::get_metadata_cache_state(&env, a), MetadataCacheState::Missing);
    AnchorKitContract::cache_metadata_swr(&mut env, a, metadata(a), 100, 50).unwrap();
    assert_eq!(AnchorKitContract::get_metadata_cache_state(&env, a), MetadataCacheState::Fresh);
    assert_eq!(AnchorKitContract::get_cached_metadata_swr(&mut env, a), Ok((metadata(a), false)));
    env.clock.timestamp = 1_120;
    assert_eq!(AnchorKitContract::get_metadata_cache_state(&env, a), MetadataCacheState::Stale);
    assert_eq!(AnchorKitContract::get_cached_metadata_swr(&mut env, a), Ok((metadata(a), true)));
    env.clock.timestamp = 1_151;
    assert_eq!(AnchorKitContract::get_metadata_cache_state(&env, a), MetadataCacheState::Expired);
    assert_eq!(
        code(AnchorKitContract::get_cached_metadata_swr(&mut env, a)),
        Some(ErrorCode::CacheExpired)
    );
}

#[test]
fn a_failed_refresh_keeps_the_entry() {
    let (mut env, _, a) = setup();
    AnchorKitContract::cache_metadata(&mut env, a, metadata(a), 100).unwrap();
    let mut wrong = metadata(a);
    wrong.uptime_percentage = 10_001;
    assert_eq!(
        code(AnchorKitContract::refresh_metadata_cache_swr(&mut env, a, wrong, 100, 10)),
        Some(ErrorCode::ValidationError)
    );
    assert_eq!(AnchorKitContract::get_cached_metadata(&env, a), Ok(metadata(a)));
    let mut next = metadata(a);
    next.reputation_score = 81;
    AnchorKitContract::refresh_metadata_cache(&mut env, a, next, 100).unwrap();
    assert_eq!(AnchorKitContract::get_cached_metadata(&env, a).unwrap().reputation_score, 81);
    let d = AnchorKitContract::get_refresh_diagnostic(&env, a, "metadata".to_string()).unwrap();
    assert_eq!((d.status, d.had_cached_entry), (RefreshStatus::Success, true));
}

#[test]
fn the_cache_has_a_capacity() {
    let (mut env, _, a) = setup();
    let mut config = AnchorKitContract::get_capacity_config(&env);
    config.max_cache_entries = 1;
    AnchorKitContract::set_capacity_config(&mut env, config).unwrap();
    AnchorKitContract::cache_metadata(&mut env, a, metadata(a), 100).unwrap();
    assert_eq!(AnchorKitContract::get_cache_count(&env), 1);
    // An entry that is there may be replaced.
    AnchorKitContract::cache_metadata(&mut env, a, metadata(a), 100).unwrap();
    let b = generate(3);
    assert_eq!(
        code(AnchorKitContract::cache_metadata(&mut env, b, metadata(b), 100)),
        Some(ErrorCode::CacheCapacityExceeded)
    );
    assert_eq!(AnchorKitContract::invalidate_cache_for_anchor(&mut env, a), Ok(true));
    assert_eq!(AnchorKitContract::get_cache_count(&env), 0);
    assert_eq!(AnchorKitContract::invalidate_cache_for_anchor(&mut env, a), Ok(false));
}

#[test]
fn capabilities_are_cached() {
    let (mut env, _, a) = setup();
    AnchorKitContract::cache_capabilities(&mut env, a, "https://x".to_string(), "sep6".to_string(), 300)
        .unwrap();
    assert_eq!(AnchorKitContract::get_cached_capabilities(&env, a).unwrap().capabilities, "sep6");
    AnchorKitContract::refresh_capabilities_cache(
        &mut env,
        a,
        "https://x".to_string(),
        "sep24".to_string(),
        300,
    )
    .unwrap();
    assert_eq!(AnchorKitContract::get_cached_capabilities(&env, a).unwrap().capabilities, "sep24");
    env.clock.timestamp = 1_301;
    assert_eq!(
        code(AnchorKitContract::get_cached_capabilities(&env, a)),
        Some(ErrorCode::CacheExpired)
    );
}

#[test]
fn compaction_removes_only_dead_entries() {
    let (mut env, _, a) = setup();
    let b = generate(3);
    AnchorKitContract::cache_metadata(&mut env, a, metadata(a), 100).unwrap();
    AnchorKitContract::cache_metadata(&mut env, b, metadata(b), 5_000).unwrap();
    env.clock.timestamp = 2_000;
    assert_eq!(AnchorKitContract::compact_cache(&mut env, &vec![a, b, generate(4)]), Ok(1));
    assert_eq!(AnchorKitContract::get_metadata_cache_state(&env, a), MetadataCacheState::Missing);
    assert_eq!(AnchorKitContract::get_cached_metadata(&env, b), Ok(metadata(b)));
}

#[test]
fn compaction_removes_entries_in_their_grace_period() {
    let (mut env, _, a) = setup();
    AnchorKitContract::cache_metadata_swr(&mut env, a, metadata(a), 100, 50).unwrap();
    env.clock.timestamp += 99;
    assert_eq!(AnchorKitContract::compact_cache(&mut env, &vec![a]), Ok(0));
    env.clock.timestamp += 1;
    assert_eq!(AnchorKitContract::compact_cache(&mut env, &vec![a]), Ok(1));
    assert_eq!(AnchorKitContract::get_metadata_cache_state(&env, a), MetadataCacheState::Missing);
}

#[test]
fn an_endorsed_proposal_clears_the_entry() {
    let (mut env, _, a) = setup();
    for n in [6, 7] {
        attestor(&mut env, generate(n));
    }
    AnchorKitContract::set_cache_quorum_threshold(&mut env, 2).unwrap();
    AnchorKitContract::cache_metadata(&mut env, a, metadata(a), 100).unwrap();
    assert_eq!(
        code(AnchorKitContract::propose_cache_invalidation(&mut env, generate(8), a)),
        Some(ErrorCode::AttestorNotRegistered)
    );
    let id = AnchorKitContract::propose_cache_invalidation(&mut env, generate(6), a).unwrap();
    assert!(AnchorKitContract::execute_cache_invalidation(&mut env, id).is_err());
    AnchorKitContract::endorse_cache_invalidation(&mut env, generate(7), id).unwrap();
    assert_eq!(AnchorKitContract::get_cache_count(&env), 1);
    AnchorKitContract::execute_cache_invalidation(&mut env, id).unwrap();
    assert_eq!(AnchorKitContract::get_cache_count(&env), 0);
    assert_eq!(AnchorKitContract::get_metadata_cache_state(&env, a), MetadataCacheState::Missing);
    assert!(AnchorKitContract::get_cache_invalidation_proposal(&env, id).unwrap().executed);
    assert!(AnchorKitContract::execute_cache_invalidation(&mut env, id).is_err());
}

#[test]
fn endorsers_count_once_and_proposals_expire() {
    let mut env = Ledger::new(1_000, 10);
    cache_governance::set_config(
        &mut env,
        CacheGovernanceConfig { quorum_threshold: 2, proposal_expiry_ledgers: 5 },
    )
    .unwrap();
    let id = cache_governance::propose(&mut env, &generate(1), &generate(2)).unwrap();
    assert_eq!(cache_governance::proposal_count(&env), 1);
    // A second endorsement of the same address counts for nothing.
    cache_governance::endorse(&mut env, &generate(1), id).unwrap();
    assert!(cache_governance::execute(&mut env, id).is_err());
    assert!(cache_governance::endorse(&mut env, &generate(3), id + 1).is_err());
    cache_governance::endorse(&mut env, &generate(3), id).unwrap();
    assert_eq!(
        cache_governance::get_proposal(&env, id).unwrap().endorsements,
        vec![generate(1), generate(3)]
    );
    env.clock.sequence = 16;
    assert_eq!(
        cache_governance::execute(&mut env, id).err().unwrap().code,
        ErrorCode::StaleQuote
    );
    env.clock.sequence = 14;
    assert_eq!(cache_governance::execute(&mut env, id).unwrap(), generate(2));
    assert!(cache_governance::execute(&mut env, id).is_err());
    assert!(cache_governance::set_config(
        &mut env,
        CacheGovernanceConfig { quorum_threshold: 0, proposal_expiry_ledgers: 5 }
    )
    .is_err());
}

#[test]
fn policies_bound_lifetimes() {
    let p = CachePolicy::default_metadata();
    assert_eq!(p.clamp_ttl(0), 43_230);
    assert_eq!(p.clamp_ttl(30), 60);
    assert_eq!(p.clamp_ttl(3_600), 3_600);
    assert_eq!(p.clamp_ttl(1), 60);
    assert_eq!(p.clamp_ttl(100), 100);
    assert_eq!(p.clamp_ttl(1_000_000), 86_400);
    assert!(!p.needs_refresh(79, 100));
    assert!(p.needs_refresh(80, 100));
    assert!(!p.is_expired(99, 100));
    assert!(p.is_expired(100, 100));
    assert_eq!(CachePolicy::default_for(CacheEntryType::Capabilities).clamp_ttl(1), 300);
    assert_eq!(CachePolicy::default_for(CacheEntryType::Other).clamp_ttl(1), 30);
    let mut bad = p;
    bad.min_ttl_seconds = 0;
    assert!(bad.validate().is_err());
    let mut bad = p;
    bad.max_ttl_seconds = 59;
    assert!(bad.validate().is_err());
    let mut bad = p;
    bad.refresh_threshold_pct = 101;
    assert!(bad.validate().is_err());
    assert!(CachePolicySet::default_set().validate().is_ok());
}

#[test]
fn writes_and_reads_follow_the_policy() {
    let mut env = Ledger::new(1_000, 10);
    assert_eq!(
        cache_governance::enforce_write_policy(&env, CacheEntryType::Metadata, 10, 0),
        (60, false)
    );
    assert_eq!(
        cache_governance::enforce_write_policy(&env, CacheEntryType::Metadata, 100, 90),
        (100, true)
    );
    assert_eq!(
        cache_governance::enforce_read_policy(&env, CacheEntryType::Metadata, 100, 100),
        (true, true)
    );
    assert_eq!(
        cache_governance::enforce_read_policy(&env, CacheEntryType::Metadata, 80, 100),
        (true, false)
    );
    assert_eq!(
        cache_governance::enforce_read_policy(&env, CacheEntryType::Metadata, 79, 100),
        (false, false)
    );
    let mut set = CachePolicySet::default_set();
    set.metadata.allow_forced_invalidation = false;
    let mut logger = StructuredLogger::new();
    cache_governance::set_policy_set_logged(&mut env, set, &mut logger).unwrap();
    assert!(cache_governance::enforce_invalidation_policy_logged(
        &env,
        CacheEntryType::Metadata,
        &mut logger
    )
    .is_err());
    assert_eq!(
        cache_governance::enforce_write_policy_logged(
            &env,
            CacheEntryType::Metadata,
            10,
            0,
            &mut logger
        ),
        (60, false)
    );
    assert_eq!(logger.len(), 3);
    assert_eq!(logger.records()[0].event, "cache.policy_updated");
    assert_eq!(logger.records()[1].event, "cache.invalidation_denied");
    assert_eq!(logger.records()[2].event, "cache.ttl_clamped");
}

fn toml() -> StellarToml {
    StellarToml {
        version: "2.0".to_string(),
        network_passphrase: "Test".to_string(),
        accounts: vec![],
        signing_key: "G".to_string(),
        currencies: vec![AssetInfo {
            code: "USDC".to_string(),
            issuer: "G".to_string(),
            deposit_enabled: true,
            withdrawal_enabled: false,
            deposit_fee_fixed: 1,
            deposit_fee_percent: 2,
            withdrawal_fee_fixed: 3,
            withdrawal_fee_percent: 4,
            deposit_min_amount: 5,
            deposit_max_amount: 6,
            withdrawal_min_amount: 7,
            withdrawal_max_amount: 8,
        }],
        transfer_server: String::new(),
        transfer_server_sep0024: String::new(),
        kyc_server: String::new(),
        web_auth_endpoint: String::new(),
        direct_payment_server: "https://pay.example".to_string(),
    }
}

#[test]
fn anchor_files_read_back() {
    let (mut env, _, a) = setup();
    assert_eq!(code(AnchorKitContract::get_anchor_toml(&env, a)), Some(ErrorCode::CacheNotFound));
    AnchorKitContract::fetch_anchor_info(&mut env, a, toml(), 400, "https://a/x.toml".to_string()).unwrap();
    assert_eq!(AnchorKitContract::get_anchor_toml(&env, a).unwrap(), &toml());
    assert_eq!(AnchorKitContract::get_anchor_assets(&env, a), Ok(vec!["USDC".to_string()]));
    let usdc = || "USDC".to_string();
    assert_eq!(AnchorKitContract::get_anchor_deposit_limits(&env, a, usdc()), Ok((5, 6)));
    assert_eq!(AnchorKitContract::get_anchor_withdrawal_limits(&env, a, usdc()), Ok((7, 8)));
    assert_eq!(AnchorKitContract::get_anchor_deposit_fees(&env, a, usdc()), Ok((1, 2)));
    assert_eq!(AnchorKitContract::get_anchor_withdrawal_fees(&env, a, usdc()), Ok((3, 4)));
    assert_eq!(AnchorKitContract::anchor_supports_deposits(&env, a, usdc()), Ok(true));
    assert_eq!(AnchorKitContract::anchor_supports_withdrawals(&env, a, usdc()), Ok(false));
    assert!(AnchorKitContract::supports_sep31(&env, a));
    assert_eq!(
        code(AnchorKitContract::get_anchor_asset_info(&env, a, "EURC".to_string())),
        Some(ErrorCode::ValidationError)
    );
    env.clock.timestamp = 1_050;
    let p = AnchorKitContract::get_anchor_toml_provenance(&env, a).unwrap();
    assert_eq!((p.source_uri.as_str(), p.cached_at, p.age_seconds), ("https://a/x.toml", 1_000, 50));
    env.clock.timestamp = 1_400;
    assert_eq!(code(AnchorKitContract::get_anchor_toml(&env, a)), Some(ErrorCode::CacheExpired));
    let mut bad = toml();
    bad.currencies[0].code = "U$".to_string();
    assert_eq!(
        code(AnchorKitContract::fetch_anchor_info(&mut env, a, bad, 100, String::new())),
        Some(ErrorCode::InvalidAssetCode)
    );
}

#[test]
fn refreshing_a_fresh_entry_with_the_same_data_changes_nothing() {
    let (mut env, _, a) = setup();
    AnchorKitContract::cache_metadata_swr(&mut env, a, metadata(a), 100, 50).unwrap();
    env.clock.timestamp = 1_050;
    AnchorKitContract::refresh_metadata_cache_swr(&mut env, a, metadata(a), 100, 50).unwrap();
    assert_eq!(env.cache.metadata.get(&a).unwrap().value.cached_at, 1_000);
    let mut next = metadata(a);
    next.liquidity_score = 71;
    AnchorKitContract::refresh_metadata_cache_swr(&mut env, a, next, 100, 50).unwrap();
    assert_eq!(env.cache.metadata.get(&a).unwrap().value.cached_at, 1_050);
    env.clock.timestamp = 1_160;
    AnchorKitContract::refresh_metadata_cache_swr(&mut env, a, next, 100, 50).unwrap();
    assert_eq!(env.cache.metadata.get(&a).unwrap().value.cached_at, 1_160);
}

#[test]
fn forced_refreshes_need_the_policy() {
    let (mut env, _, a) = setup();
    let mut set = CachePolicySet::default_set();
    set.metadata.allow_forced_invalidation = false;
    AnchorKitContract::set_cache_policy_set(&mut env, set).unwrap();
    assert_eq!(
        code(AnchorKitContract::force_refresh_metadata(&mut env, a, metadata(a), 100, 50)),
        Some(ErrorCode::ValidationError)
    );
    AnchorKitContract::set_cache_policy_set(&mut env, CachePolicySet::default_set()).unwrap();
    AnchorKitContract::force_refresh_metadata(&mut env, a, metadata(a), 100, 50).unwrap();
    assert_eq!(AnchorKitContract::get_cached_metadata(&env, a), Ok(metadata(a)));
}

#[test]
fn an_entry_of_no_age_needs_no_refresh() {
    let mut env = Ledger::new(1_000, 10);
    let mut set = CachePolicySet::default_set();
    set.metadata.min_ttl_seconds = 1;
    set.metadata.max_ttl_seconds = 10;
    set.metadata.refresh_threshold_pct = 80;
    cache_governance::set_policy_set(&mut env, set).unwrap();
    assert_eq!(
        cache_governance::enforce_write_policy(&env, CacheEntryType::Metadata, 1, 0),
        (1, false)
    );
}

#[test]
fn log_fields_are_texts() {
    let mut env = Ledger::new(1_000, 10);
    let mut logger = StructuredLogger::new();
    let id = cache_governance::propose_logged(
        &mut env,
        &Address::Account([0; 32]),
        &Address::Contract([0; 32]),
        &mut logger,
    )
    .unwrap();
    let account = "GAAAAAAAAAAAAAAAAAAAAAAAAAAAAAAAAAAAAAAAAAAAAAAAAAAAAWHF";
    let contract = "CAAAAAAAAAAAAAAAAAAAAAAAAAAAAAAAAAAAAAAAAAAAAAAAAAAABSC4";
    assert_eq!(Address::Account([0; 32]).to_text(), account);
    assert_eq!(Address::Contract([0; 32]).to_text(), contract);
    assert_eq!(logger.records()[0].field("proposer"), Some(&FieldValue::Str(account.to_string())));
    assert_eq!(logger.records()[0].field("anchor"), Some(&FieldValue::Str(contract.to_string())));
    assert_eq!(logger.records()[0].field("proposal_id"), Some(&FieldValue::U64(id)));
    assert!(cache_governance::execute_logged(&mut env, id + 1, &mut logger).is_err());
    assert!(cache_governance::execute_logged(&mut env, id, &mut logger).is_err());
    assert_eq!(
        logger.records()[1].field("error"),
        Some(&FieldValue::Str(
            "AnchorKitError { code: CacheNotFound, message: \"cache entry not found\", context: None }"
                .to_string()
        ))
    );
    assert_eq!(
        logger.records()[2].field("error"),
        Some(&FieldValue::Str(
            "AnchorKitError { code: ValidationError, message: \"validation error\", context: Some(\"quorum not reached\") }"
                .to_string()
        ))
    );
}

#[test]
fn errors_are_described_as_they_are_debugged() {
    for e in [
        AnchorKitError::new(ErrorCode::StaleQuote, "say \"no\""),
        AnchorKitError::validation_error("a\nb"),
        AnchorKitError::cache_not_found(),
    ] {
        assert_eq!(e.describe(), format!("{:?}", e));
        assert_eq!(e.code.name(), format!("{:?}", e.code));
    }
}

#[test]
fn every_write_is_counted() {
    let (mut env, _, a) = setup();
    let b = generate(12);
    AnchorKitContract::set_capacity_config(
        &mut env,
        CapacityConfig { max_attestors: 10, max_cache_entries: 2 },
    )
    .unwrap();
    AnchorKitContract::force_refresh_metadata(&mut env, a, metadata(a), 100, 50).unwrap();
    assert_eq!(AnchorKitContract::get_cache_count(&env), 1);
    AnchorKitContract::force_refresh_metadata(&mut env, a, metadata(a), 100, 50).unwrap();
    assert_eq!(AnchorKitContract::get_cache_count(&env), 1);
    AnchorKitContract::refresh_metadata_cache_swr(&mut env, b, metadata(b), 100, 50).unwrap();
    assert_eq!(AnchorKitContract::get_cache_count(&env), 2);
    let c = generate(13);
    assert_eq!(
        code(AnchorKitContract::force_refresh_metadata(&mut env, c, metadata(c), 100, 50)),
        Some(ErrorCode::CacheCapacityExceeded)
    );
    assert_eq!(
        code(AnchorKitContract::refresh_metadata_cache_swr(&mut env, c, metadata(c), 100, 50)),
        Some(ErrorCode::CacheCapacityExceeded)
    );
    assert_eq!(AnchorKitContract::invalidate_cache_for_anchor(&mut env, a), Ok(true));
    assert_eq!(AnchorKitContract::get_cache_count(&env), 1);
}
