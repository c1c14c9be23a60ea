use anchorkit::address::Address;
use anchorkit::contract::events::Event;
use anchorkit::contract::ledger::{AnchorKitContract, ContractError, Ledger};
use anchorkit::contract::policies::{reputation_shares, Share};
use anchorkit::contract::routing::{score_bounds, score_terms, validate_weights, ScoreBounds, ScoreTerms};
use anchorkit::contract::types::{AnchorReputationRecord, Bytes, RoutingOptions, RoutingRequest};
use anchorkit::errors::ErrorCode;

fn generate(n: u8) -> Address {
    Address::Contract([n; 32])
}

fn code<T>(r: Result<T, ContractError>) -> Option<ErrorCode> {
    match r {
        Err(ContractError::Code(c)) => Some(c),
        _ => None,
    }
}

fn setup() -> Ledger {
    let mut env = Ledger::new(1_000, 10);
    env.mock_all_auths();
    AnchorKitContract::initialize(&mut env, generate(1)).unwrap();
    AnchorKitContract::set_sep10_jwt_verifying_key(&mut env, generate(9), Bytes::from_slice(&[7u8; 32]))
        .unwrap();
    env
}

/// An anchor with metadata, the quote service and one quote.
fn anchor(env: &mut Ledger, n: u8, reputation: u32, settlement: u64, fee: u32) -> Address {
    let a = generate(n);
    AnchorKitContract::register_attestor(env, a, "t".to_string(), generate(9), [n; 32], true).unwrap();
    AnchorKitContract::configure_services(env, a, vec![3]).unwrap();
    AnchorKitContract::set_anchor_metadata(env, a, reputation, settlement, 50, 99, 1).unwrap();
    AnchorKitContract::submit_quote(
        env,
        a,
        "USD".to_string(),
        "EUR".to_string(),
        90,
        fee,
        10,
        1_000,
        2_000,
    )
    .unwrap();
    a
}

fn options(strategy: &str) -> RoutingOptions {
    RoutingOptions {
        request: RoutingRequest {
            base_asset: "USD".to_string(),
            quote_asset: "EUR".to_string(),
            amount: 100,
            operation_type: 1,
        },
        strategy: vec![strategy.to_string()],
        min_reputation: 0,
        max_anchors: 5,
        require_kyc: false,
        require_compliance: false,
        subject: generate(40),
        fee_weight: 1,
        speed_weight: 1,
        reputation_weight: 1,
    }
}

fn routed(env: &mut Ledger, strategy: &str, scores: &Vec<u64>) -> Address {
    AnchorKitContract::route_transaction(env, &options(strategy), scores).unwrap().anchor
}

#[test]
fn each_strategy_picks_its_best_quote() {
    let mut env = setup();
    let a = anchor(&mut env, 2, 10, 300, 20);
    let b = anchor(&mut env, 3, 90, 200, 30);
    let c = anchor(&mut env, 4, 50, 100, 40);
    assert_eq!(routed(&mut env, "LowestFee", &vec![]), a);
    assert_eq!(routed(&mut env, "HighestReputation", &vec![]), b);
    assert_eq!(routed(&mut env, "FastestSettlement", &vec![]), c);
    assert_eq!(routed(&mut env, "WeightedScore", &vec![1, 5, 3]), b);
    // A name that stands for no strategy takes the first candidate.
    assert_eq!(routed(&mut env, "Random", &vec![1, 5, 3]), a);
    assert!(matches!(env.events.last(), Some(Event::RouteSelected(_))));
}

#[test]
fn the_first_of_equal_quotes_is_picked() {
    let mut env = setup();
    let a = anchor(&mut env, 2, 10, 300, 20);
    anchor(&mut env, 3, 10, 300, 20);
    assert_eq!(routed(&mut env, "LowestFee", &vec![]), a);
}

#[test]
fn only_eligible_anchors_are_candidates() {
    let mut env = setup();
    let a = anchor(&mut env, 2, 10, 300, 20);
    let b = anchor(&mut env, 3, 20, 300, 30);
    let mut o = options("LowestFee");
    o.min_reputation = 15;
    assert_eq!(AnchorKitContract::routing_candidates(&env, &o).len(), 1);
    AnchorKitContract::deactivate_anchor(&mut env, b).unwrap();
    assert_eq!(AnchorKitContract::routing_candidates(&env, &o).len(), 0);
    AnchorKitContract::reactivate_anchor(&mut env, b).unwrap();
    AnchorKitContract::blacklist_anchor(&mut env, b, "fraud".to_string()).unwrap();
    assert_eq!(
        code(AnchorKitContract::route_transaction(&mut env, &o, &vec![])),
        Some(ErrorCode::NoQuotesAvailable)
    );
    let mut o = options("LowestFee");
    o.request.amount = 9;
    assert_eq!(AnchorKitContract::routing_candidates(&env, &o).len(), 0);
    o.request.amount = 1_000;
    assert_eq!(AnchorKitContract::routing_candidates(&env, &o)[0].anchor, a);
    o.request.amount = 1_001;
    assert_eq!(AnchorKitContract::routing_candidates(&env, &o).len(), 0);
    o.request.amount = 100;
    env.clock.timestamp = 2_000;
    assert_eq!(AnchorKitContract::routing_candidates(&env, &o).len(), 0);
}

#[test]
fn routing_needs_compliance_and_kyc() {
    let mut env = setup();
    anchor(&mut env, 2, 10, 300, 20);
    let mut o = options("LowestFee");
    o.request.base_asset = "U$D".to_string();
    assert_eq!(
        code(AnchorKitContract::route_transaction(&mut env, &o, &vec![])),
        Some(ErrorCode::InvalidAssetCode)
    );
    let mut o = options("LowestFee");
    o.require_compliance = true;
    assert_eq!(
        code(AnchorKitContract::route_transaction(&mut env, &o, &vec![])),
        Some(ErrorCode::ComplianceNotMet)
    );
    let mut o = options("LowestFee");
    o.require_kyc = true;
    assert_eq!(
        code(AnchorKitContract::route_transaction(&mut env, &o, &vec![])),
        Some(ErrorCode::KycNotFound)
    );
    AnchorKitContract::submit_kyc(&mut env, o.subject, Bytes::from_slice(&[1; 32]), generate(2)).unwrap();
    assert_eq!(
        code(AnchorKitContract::route_transaction(&mut env, &o, &vec![])),
        Some(ErrorCode::KycPending)
    );
    AnchorKitContract::approve_kyc(&mut env, generate(1), o.subject).unwrap();
    assert!(AnchorKitContract::route_transaction(&mut env, &o, &vec![]).is_ok());
    let mut o = options("LowestFee");
    o.strategy = vec![];
    assert_eq!(
        code(AnchorKitContract::route_transaction(&mut env, &o, &vec![])),
        Some(ErrorCode::NoQuotesAvailable)
    );
}

#[test]
fn the_preferred_anchor_comes_first() {
    let mut env = setup();
    let a = anchor(&mut env, 2, 10, 300, 20);
    let b = anchor(&mut env, 3, 90, 200, 30);
    let o = options("LowestFee");
    assert_eq!(AnchorKitContract::route_with_fallback(&mut env, &o, b, &vec![]).unwrap().anchor, b);
    AnchorKitContract::deactivate_anchor(&mut env, b).unwrap();
    assert_eq!(AnchorKitContract::route_with_fallback(&mut env, &o, b, &vec![]).unwrap().anchor, a);
}

#[test]
fn the_preferred_anchor_has_to_qualify() {
    let mut env = setup();
    let a = anchor(&mut env, 2, 90, 300, 20);
    let b = anchor(&mut env, 3, 10, 200, 30);
    // Its reputation counts.
    let mut o = options("LowestFee");
    o.min_reputation = 50;
    assert_eq!(AnchorKitContract::route_with_fallback(&mut env, &o, b, &vec![]).unwrap().anchor, a);
    let n = env.events.len();
    assert!(matches!(env.events[n - 2], Event::QuoteFallback));
    assert!(matches!(&env.events[n - 1], Event::RouteSelected(e) if e.event_type == "transaction_routed"));
    // So do its services.
    let o = options("LowestFee");
    AnchorKitContract::configure_services(&mut env, b, vec![1]).unwrap();
    assert_eq!(AnchorKitContract::route_with_fallback(&mut env, &o, b, &vec![]).unwrap().anchor, a);
    AnchorKitContract::configure_services(&mut env, b, vec![3]).unwrap();
    assert_eq!(AnchorKitContract::route_with_fallback(&mut env, &o, b, &vec![]).unwrap().anchor, b);
    // And what is asked of the subject.
    let events = env.events.len();
    let mut o = options("LowestFee");
    o.require_compliance = true;
    assert_eq!(
        code(AnchorKitContract::route_with_fallback(&mut env, &o, b, &vec![])),
        Some(ErrorCode::ComplianceNotMet)
    );
    let mut o = options("LowestFee");
    o.require_kyc = true;
    assert_eq!(
        code(AnchorKitContract::route_with_fallback(&mut env, &o, b, &vec![])),
        Some(ErrorCode::KycNotFound)
    );
    // A fallback that finds nothing is not announced.
    AnchorKitContract::deactivate_anchor(&mut env, a).unwrap();
    AnchorKitContract::deactivate_anchor(&mut env, b).unwrap();
    let o = options("LowestFee");
    let before = env.events.len();
    assert_eq!(
        code(AnchorKitContract::route_with_fallback(&mut env, &o, b, &vec![])),
        Some(ErrorCode::NoQuotesAvailable)
    );
    assert!(events <= before);
    assert_eq!(env.events.len(), before);
}

#[test]
fn no_quote_of_a_blacklisted_anchor_is_returned() {
    let mut env = setup();
    let a = anchor(&mut env, 2, 90, 300, 20);
    let b = anchor(&mut env, 3, 10, 200, 30);
    AnchorKitContract::blacklist_anchor(&mut env, a, "fraud".to_string()).unwrap();
    let o = options("LowestFee");
    assert_eq!(AnchorKitContract::route_transaction(&mut env, &o, &vec![]).unwrap().anchor, b);
    assert_eq!(AnchorKitContract::route_with_fallback(&mut env, &o, a, &vec![]).unwrap().anchor, b);
    let ranked = AnchorKitContract::route_anchors(&env, 400, 300, 300, 10, 0, &vec![1]).unwrap();
    assert_eq!(ranked.iter().map(|q| q.anchor).collect::<Vec<Address>>(), vec![b]);
}

#[test]
fn weights_add_up_to_a_thousand() {
    assert_eq!(validate_weights(500, 300, 200), Ok(()));
    assert_eq!(code(validate_weights(500, 300, 201)), Some(ErrorCode::InvalidWeights));
    assert_eq!(code(validate_weights(u32::MAX, 1, 1_000)), Some(ErrorCode::InvalidWeights));
}

#[test]
fn ranked_quotes_come_in_order_of_score() {
    let mut env = setup();
    let a = anchor(&mut env, 2, 10, 300, 20);
    let b = anchor(&mut env, 3, 90, 200, 30);
    let c = anchor(&mut env, 4, 50, 100, 40);
    let all = AnchorKitContract::eligible_quotes(&env, 0);
    assert_eq!(all.len(), 3);
    let ranked = AnchorKitContract::route_anchors(&env, 400, 300, 300, 10, 0, &vec![5, 9, 7]).unwrap();
    let order: Vec<Address> = ranked.iter().map(|q| q.anchor).collect();
    assert_eq!(order, vec![b, c, a]);
    let first = AnchorKitContract::route_anchors(&env, 400, 300, 300, 1, 0, &vec![5, 9, 7]).unwrap();
    assert_eq!(first.len(), 1);
    assert_eq!(first[0].anchor, b);
    assert_eq!(
        code(AnchorKitContract::route_anchors(&env, 0, 0, 0, 1, 0, &vec![])),
        Some(ErrorCode::InvalidWeights)
    );
}

#[test]
fn blacklisting_is_undone_by_removal() {
    let mut env = setup();
    let a = anchor(&mut env, 2, 10, 300, 20);
    AnchorKitContract::blacklist_anchor(&mut env, a, "fraud".to_string()).unwrap();
    assert!(AnchorKitContract::is_anchor_blacklisted(&env, a));
    assert_eq!(AnchorKitContract::get_blacklisted_anchors(&env), &vec![a]);
    AnchorKitContract::remove_from_blacklist(&mut env, a).unwrap();
    assert!(!AnchorKitContract::is_anchor_blacklisted(&env, a));
    assert_eq!(AnchorKitContract::get_blacklisted_anchors(&env).len(), 0);
    assert_eq!(routed(&mut env, "LowestFee", &vec![]), a);
}

#[test]
fn metadata_versions_are_kept_in_order() {
    let mut env = setup();
    let a = anchor(&mut env, 2, 10, 300, 20);
    AnchorKitContract::set_anchor_metadata(&mut env, a, 11, 301, 51, 98, 2).unwrap();
    assert_eq!(AnchorKitContract::get_anchor_meta_version_count(&env, a), 2);
    let v = AnchorKitContract::get_anchor_metadata_at_version(&env, a, 1).unwrap();
    assert_eq!((v.version, v.reputation_score, v.average_settlement_time), (1, 10, 300));
    let all = AnchorKitContract::get_anchor_metadata_history(&env, a);
    assert_eq!(all.iter().map(|v| v.version).collect::<Vec<u32>>(), vec![1, 2]);
    for i in 0..60u32 {
        AnchorKitContract::set_anchor_metadata(&mut env, a, i, 301, 51, 98, 2).unwrap();
    }
    let all = AnchorKitContract::get_anchor_metadata_history(&env, a);
    assert_eq!(all.len(), 50);
    assert_eq!(all[49].version, 62);
    assert_eq!(AnchorKitContract::get_anchor_metadata(&env, a).unwrap().reputation_score, 59);
    assert_eq!(AnchorKitContract::list_active_anchors(&env), vec![a]);
}

#[test]
fn clusters_are_created_changed_and_deleted() {
    let mut env = setup();
    let id = "c1".to_string();
    AnchorKitContract::create_anchor_cluster(&mut env, id.clone(), "north".to_string(), vec![generate(2)])
        .unwrap();
    assert_eq!(AnchorKitContract::get_anchor_cluster(&env, id.clone()).unwrap().anchors, vec![generate(2)]);
    AnchorKitContract::update_anchor_cluster_anchors(&mut env, id.clone(), vec![generate(3)]).unwrap();
    assert_eq!(AnchorKitContract::get_anchor_cluster(&env, id.clone()).unwrap().anchors, vec![generate(3)]);
    assert_eq!(AnchorKitContract::list_anchor_clusters(&env), &vec![id.clone()]);
    AnchorKitContract::delete_anchor_cluster(&mut env, id.clone()).unwrap();
    assert!(AnchorKitContract::get_anchor_cluster(&env, id).is_err());
    assert_eq!(AnchorKitContract::list_anchor_clusters(&env).len(), 0);
}

#[test]
fn recorded_reputations_rank_first() {
    let mut env = setup();
    let a = anchor(&mut env, 2, 10, 300, 20);
    let b = anchor(&mut env, 3, 90, 200, 30);
    let c = anchor(&mut env, 4, 50, 100, 40);
    AnchorKitContract::set_anchor_reputation(&mut env, a, 10, 9, 80, 10, 10).unwrap();
    AnchorKitContract::set_anchor_reputation(&mut env, c, 10, 9, 80, 10, 10).unwrap();
    let ranked = AnchorKitContract::rank_anchors_by_reputation(&env, &vec![10, 99, 20]);
    assert_eq!(ranked, vec![c, a, b]);
    assert_eq!(AnchorKitContract::get_anchor_composite_reputation(&env, a, 77), 77);
    assert_eq!(AnchorKitContract::get_anchor_composite_reputation(&env, b, 77), 0);
}

#[test]
fn the_earliest_of_equally_urgent_policies_is_active() {
    let mut env = setup();
    let day = |env: &mut Ledger, name: &str, from: u32, to: u32, priority: u32| {
        AnchorKitContract::register_timed_routing_policy(
            env,
            name.to_string(),
            name.to_string(),
            from,
            to,
            priority,
        )
    };
    let first = day(&mut env, "day", 28_800, 64_800, 5).unwrap();
    day(&mut env, "night", 64_800, 28_800, 5).unwrap();
    day(&mut env, "noon", 43_200, 46_800, 1).unwrap();
    day(&mut env, "late", 28_800, 64_800, 5).unwrap();
    let at = |env: &Ledger, t: u64| AnchorKitContract::get_active_routing_policy(env, t);
    assert_eq!(at(&env, 3 * 86_400 + 30_000), Some("day".to_string()));
    assert_eq!(at(&env, 3 * 86_400 + 43_200), Some("noon".to_string()));
    assert_eq!(at(&env, 3 * 86_400 + 46_800), Some("day".to_string()));
    assert_eq!(at(&env, 3 * 86_400 + 64_800), Some("night".to_string()));
    assert_eq!(at(&env, 3 * 86_400 + 28_799), Some("night".to_string()));
    AnchorKitContract::set_timed_policy_enabled(&mut env, first, false).unwrap();
    assert_eq!(at(&env, 3 * 86_400 + 30_000), Some("late".to_string()));
    assert!(code(day(&mut env, "bad", 86_400, 1, 1)).is_some());
}

#[test]
fn the_active_network_wins_over_the_default() {
    let mut env = setup();
    for (name, default) in [("testnet", true), ("mainnet", false)] {
        AnchorKitContract::register_network_routing_profile(
            &mut env,
            name.to_string(),
            "LowestFee".to_string(),
            500,
            300,
            200,
            0,
            default,
        )
        .unwrap();
    }
    assert_eq!(AnchorKitContract::get_routing_profile(&env).unwrap().network_name, "testnet");
    AnchorKitContract::set_active_network(&mut env, "mainnet".to_string()).unwrap();
    assert_eq!(AnchorKitContract::get_active_network(&env), &Some("mainnet".to_string()));
    assert_eq!(AnchorKitContract::get_routing_profile(&env).unwrap().network_name, "mainnet");
    // A network without a profile falls back to the default.
    AnchorKitContract::set_active_network(&mut env, "nowhere".to_string()).unwrap();
    assert_eq!(AnchorKitContract::get_routing_profile(&env).unwrap().network_name, "testnet");
    assert_eq!(
        code(AnchorKitContract::set_active_network(&mut env, String::new())),
        Some(ErrorCode::ValidationError)
    );
}

#[test]
fn scores_are_normalised_by_the_largest_terms() {
    let mut env = setup();
    anchor(&mut env, 2, 10, 300, 20);
    anchor(&mut env, 3, 90, 200, 30);
    let quotes = AnchorKitContract::eligible_quotes(&env, 0);
    assert_eq!(
        score_bounds(&env, &quotes),
        ScoreBounds { max_fee: 30, max_settlement: 300, max_reputation: 90 }
    );
    assert_eq!(
        score_terms(&env, &quotes[0]),
        ScoreTerms { fee: 20, settlement: 300, reputation: 10 }
    );
    assert_eq!(
        score_bounds(&env, &vec![]),
        ScoreBounds { max_fee: 0, max_settlement: 0, max_reputation: 0 }
    );
}

#[test]
fn shares_never_exceed_the_whole() {
    let s = reputation_shares(&AnchorReputationRecord {
        anchor: generate(2),
        total_routed: 10,
        successful_routed: 12,
        operator_quality_score: 20_000,
        uptime_ticks: 0,
        total_ticks: 0,
        updated_at: 1,
    });
    assert_eq!(s.success, Share { part: 10, whole: 10 });
    assert_eq!(s.uptime, Share { part: 1, whole: 1 });
    assert_eq!(s.operator_quality, Share { part: 10_000, whole: 10_000 });
}
