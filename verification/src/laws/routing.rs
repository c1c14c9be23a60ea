//! Laws of routing.
use crate::address::Address;
use crate::contract::ledger::{ContractError, Ledger};
use crate::contract::quotes::records_are_filed;
use crate::contract::routing::{
    an_eligible_anchor_is_found, bounds_of, candidates, candidates_are_eligible, eligible,
    fallback_refusal, is_best, is_candidate, is_eligible, is_preferred, is_ranked_selection,
    is_route, latest_quote, picks, ranks, route_refusal, score_at, terms_of, weights_refusal,
};
use crate::contract::types::{
    Quote, QuoteLifecycleState, RoutingOptions, RoutingRequest,
};
use crate::errors::ErrorCode;
use crate::sorting::{is_sorted_order, lists_each};
use vstd::prelude::*;

verus! {

/// A transaction is routed only to a quote for the requested pair of assets that
/// covers the amount and has not run out: the latest quote, not invalidated, of
/// a listed anchor that is active, offers quotes, is reputable enough and is not
/// on the blacklist.
pub proof fn routed_quotes_meet_the_request(
    env: Ledger,
    options: RoutingOptions,
    scores: Seq<u64>,
    q: Quote,
)
    requires
        is_route(env, options, scores, q),
    ensures
        q.base_asset@ == options.request.base_asset@,
        q.quote_asset@ == options.request.quote_asset@,
        q.minimum_amount <= options.request.amount,
        q.maximum_amount != 0 ==> options.request.amount <= q.maximum_amount,
        env.clock.timestamp < q.valid_until,
        exists|k: int|
            {
                let a = #[trigger] env.routing.anchors@[k];
                &&& 0 <= k < env.routing.anchors@.len()
                &&& !env.routing.blacklist@.contains_key(a)
                &&& env.routing.metadata@.contains_key(a)
                &&& env.routing.metadata@[a].is_active
                &&& options.min_reputation <= env.routing.metadata@[a].reputation_score
                &&& env.services.configured@.contains_key(a)
                &&& env.services.configured@[a].services@.contains(3u32)
                &&& env.quotes.latest@.contains_key(a)
                &&& env.quotes.records@.contains_key((a, env.quotes.latest@[a]))
                &&& env.quotes.records@[(a, env.quotes.latest@[a])] == q
                &&& !(env.quotes.lifecycle@.contains_key((a, q.quote_id))
                    && env.quotes.lifecycle@[(a, q.quote_id)] == QuoteLifecycleState::Invalidated)
            },
{
    let anchors = env.routing.anchors@;
    let all = candidates(env, anchors, options.request, options.min_reputation);
    let i = choose|i: int|
        #[trigger] is_best(env, options.strategy@[0]@, all, scores, i) && q == all[i];
    candidates_are_eligible(env, anchors, options.request, options.min_reputation, i);
    let k = choose|k: int|
        {
            &&& 0 <= k < anchors.len()
            &&& is_candidate(env, #[trigger] anchors[k], options.request, options.min_reputation)
            &&& latest_quote(env, anchors[k]) == Some(all[i])
        };
    let a = env.routing.anchors@[k];
    assert(env.quotes.records@[(a, env.quotes.latest@[a])] == q);
}

/// A preferred anchor is taken only with its latest quote, and only where that
/// one is for the requested pair of assets, covers the amount, has neither run
/// out nor been invalidated, and the anchor is active, offers quotes, is
/// reputable enough and is not on the blacklist; and it is taken where all of
/// that holds.
pub proof fn preferred_quotes_meet_the_request(
    env: Ledger,
    options: RoutingOptions,
    preferred: Address,
)
    ensures
        is_preferred(env, preferred, options) <==> {
            let q = env.quotes.records@[(preferred, env.quotes.latest@[preferred])];
            &&& !env.routing.blacklist@.contains_key(preferred)
            &&& env.routing.metadata@.contains_key(preferred)
            &&& env.routing.metadata@[preferred].is_active
            &&& options.min_reputation <= env.routing.metadata@[preferred].reputation_score
            &&& env.services.configured@.contains_key(preferred)
            &&& env.services.configured@[preferred].services@.contains(3u32)
            &&& env.quotes.latest@.contains_key(preferred)
            &&& env.quotes.records@.contains_key((preferred, env.quotes.latest@[preferred]))
            &&& q.base_asset@ == options.request.base_asset@
            &&& q.quote_asset@ == options.request.quote_asset@
            &&& q.minimum_amount <= options.request.amount
            &&& q.maximum_amount != 0 ==> options.request.amount <= q.maximum_amount
            &&& env.clock.timestamp < q.valid_until
            &&& !(env.quotes.lifecycle@.contains_key((preferred, q.quote_id))
                && env.quotes.lifecycle@[(preferred, q.quote_id)]
                == QuoteLifecycleState::Invalidated)
        },
        is_preferred(env, preferred, options) ==> latest_quote(env, preferred) == Some(
            env.quotes.records@[(preferred, env.quotes.latest@[preferred])],
        ),
{
}

/// A request for two asset codes, from a subject of whom nothing is asked, is
/// routed where some listed anchor that is active, offers quotes, is reputable
/// enough and is not on the blacklist has a live latest quote for that pair that
/// covers the amount.
pub proof fn a_fitting_quote_is_routed_to(
    env: Ledger,
    options: RoutingOptions,
    preferred: Address,
    k: int,
)
    requires
        !options.require_kyc,
        !options.require_compliance,
        options.strategy@.len() > 0,
        1 <= options.request.base_asset@.len() <= 12,
        forall|i: int|
            0 <= i < options.request.base_asset@.len() ==> {
                let c = #[trigger] options.request.base_asset@[i];
                'a' <= c <= 'z' || 'A' <= c <= 'Z' || '0' <= c <= '9'
            },
        1 <= options.request.quote_asset@.len() <= 12,
        forall|i: int|
            0 <= i < options.request.quote_asset@.len() ==> {
                let c = #[trigger] options.request.quote_asset@[i];
                'a' <= c <= 'z' || 'A' <= c <= 'Z' || '0' <= c <= '9'
            },
        0 <= k < env.routing.anchors@.len(),
        ({
            let a = env.routing.anchors@[k];
            let q = env.quotes.records@[(a, env.quotes.latest@[a])];
            &&& !env.routing.blacklist@.contains_key(a)
            &&& env.routing.metadata@.contains_key(a)
            &&& env.routing.metadata@[a].is_active
            &&& options.min_reputation <= env.routing.metadata@[a].reputation_score
            &&& env.services.configured@.contains_key(a)
            &&& env.services.configured@[a].services@.contains(3u32)
            &&& env.quotes.latest@.contains_key(a)
            &&& env.quotes.records@.contains_key((a, env.quotes.latest@[a]))
            &&& q.base_asset@ == options.request.base_asset@
            &&& q.quote_asset@ == options.request.quote_asset@
            &&& q.minimum_amount <= options.request.amount
            &&& q.maximum_amount != 0 ==> options.request.amount <= q.maximum_amount
            &&& env.clock.timestamp < q.valid_until
            &&& !(env.quotes.lifecycle@.contains_key((a, q.quote_id))
                && env.quotes.lifecycle@[(a, q.quote_id)] == QuoteLifecycleState::Invalidated)
        }),
    ensures
        route_refusal(env, options) is None,
        fallback_refusal(env, options, preferred) is None,
{
    an_eligible_anchor_is_found(
        env,
        env.routing.anchors@,
        options.request,
        options.min_reputation,
        k,
    );
    let all = candidates(env, env.routing.anchors@, options.request, options.min_reputation);
    let w = choose|w: int|
        0 <= w < all.len() && all[w] == latest_quote(env, env.routing.anchors@[k])->0;
    assert(all.len() > 0);
}

/// A request for two asset codes for which no listed anchor has a quote for that
/// pair is refused: no quotes are available.
pub proof fn a_pair_without_quotes_is_refused(env: Ledger, options: RoutingOptions)
    requires
        1 <= options.request.base_asset@.len() <= 12,
        forall|i: int|
            0 <= i < options.request.base_asset@.len() ==> {
                let c = #[trigger] options.request.base_asset@[i];
                'a' <= c <= 'z' || 'A' <= c <= 'Z' || '0' <= c <= '9'
            },
        1 <= options.request.quote_asset@.len() <= 12,
        forall|i: int|
            0 <= i < options.request.quote_asset@.len() ==> {
                let c = #[trigger] options.request.quote_asset@[i];
                'a' <= c <= 'z' || 'A' <= c <= 'Z' || '0' <= c <= '9'
            },
        forall|k: int|
            0 <= k < env.routing.anchors@.len() ==> {
                let a = #[trigger] env.routing.anchors@[k];
                let q = env.quotes.records@[(a, env.quotes.latest@[a])];
                ||| env.routing.blacklist@.contains_key(a)
                ||| !env.routing.metadata@.contains_key(a)
                ||| !env.routing.metadata@[a].is_active
                ||| options.min_reputation > env.routing.metadata@[a].reputation_score
                ||| !env.services.configured@.contains_key(a)
                ||| !env.services.configured@[a].services@.contains(3u32)
                ||| !env.quotes.latest@.contains_key(a)
                ||| !env.quotes.records@.contains_key((a, env.quotes.latest@[a]))
                ||| q.base_asset@ != options.request.base_asset@
                ||| q.quote_asset@ != options.request.quote_asset@
                ||| q.minimum_amount > options.request.amount
                ||| q.maximum_amount != 0 && options.request.amount > q.maximum_amount
                ||| env.clock.timestamp >= q.valid_until
                ||| env.quotes.lifecycle@.contains_key((a, q.quote_id))
                    && env.quotes.lifecycle@[(a, q.quote_id)] == QuoteLifecycleState::Invalidated
            },
    ensures
        route_refusal(env, options) == Some(ContractError::Code(ErrorCode::NoQuotesAvailable)),
{
    let anchors = env.routing.anchors@;
    let all = candidates(env, anchors, options.request, options.min_reputation);
    if all.len() > 0 {
        candidates_are_eligible(env, anchors, options.request, options.min_reputation, 0);
        let k = choose|k: int|
            {
                &&& 0 <= k < anchors.len()
                &&& is_candidate(
                    env,
                    #[trigger] anchors[k],
                    options.request,
                    options.min_reputation,
                )
                &&& latest_quote(env, anchors[k]) == Some(all[0])
            };
        assert(env.routing.anchors@[k] == anchors[k]);
    }
}

/// A request that names something other than two asset codes, one to twelve
/// letters or digits each, is refused for it.
pub proof fn requests_name_asset_codes(env: Ledger, options: RoutingOptions, preferred: Address, i: int)
    requires
        ({
            ||| options.request.base_asset@.len() == 0
            ||| options.request.base_asset@.len() > 12
            ||| options.request.quote_asset@.len() == 0
            ||| options.request.quote_asset@.len() > 12
            ||| 0 <= i < options.request.base_asset@.len() && {
                let c = options.request.base_asset@[i];
                !('a' <= c <= 'z') && !('A' <= c <= 'Z') && !('0' <= c <= '9')
            }
            ||| 0 <= i < options.request.quote_asset@.len() && {
                let c = options.request.quote_asset@[i];
                !('a' <= c <= 'z') && !('A' <= c <= 'Z') && !('0' <= c <= '9')
            }
        }),
    ensures
        route_refusal(env, options) == Some(ContractError::Code(ErrorCode::InvalidAssetCode)),
        fallback_refusal(env, options, preferred) == Some(
            ContractError::Code(ErrorCode::InvalidAssetCode),
        ),
{
}

/// Of the quotes that a request may be routed to, the strategy of lowest fees
/// takes none that another one undercuts, the strategy of fastest settlement none
/// whose anchor another one's settles before, the strategy of highest reputation
/// none whose anchor another one's surpasses, and the weighted strategy none with
/// a lower score than another. Of equals it takes the first. An anchor of which
/// nothing is known counts as the slowest and as without reputation.
pub proof fn routes_are_best(
    env: Ledger,
    options: RoutingOptions,
    scores: Seq<u64>,
    q: Quote,
) -> (i: int)
    requires
        is_route(env, options, scores, q),
    ensures
        ({
            let all = candidates(
                env,
                env.routing.anchors@,
                options.request,
                options.min_reputation,
            );
            let strategy = options.strategy@[0]@;
            let meta = env.routing.metadata@;
            &&& 0 <= i < all.len()
            &&& all[i] == q
            &&& strategy == "LowestFee"@ ==> forall|j: int|
                0 <= j < all.len() ==> q.fee_percentage <= (#[trigger] all[j]).fee_percentage && (j < i
                    ==> q.fee_percentage < all[j].fee_percentage)
            &&& strategy == "FastestSettlement"@ && meta.contains_key(q.anchor) ==> forall|j: int|
                0 <= j < all.len() && meta.contains_key((#[trigger] all[j]).anchor)
                    ==> meta[q.anchor].average_settlement_time
                    <= meta[all[j].anchor].average_settlement_time && (j < i
                    ==> meta[q.anchor].average_settlement_time
                    < meta[all[j].anchor].average_settlement_time)
            &&& strategy == "FastestSettlement"@ && !meta.contains_key(q.anchor) ==> forall|j: int|
                0 <= j < all.len() && meta.contains_key((#[trigger] all[j]).anchor)
                    ==> meta[all[j].anchor].average_settlement_time == u64::MAX
            &&& strategy == "HighestReputation"@ && !meta.contains_key(q.anchor) ==> forall|j: int|
                0 <= j < all.len() && meta.contains_key((#[trigger] all[j]).anchor)
                    ==> meta[all[j].anchor].reputation_score == 0
            &&& strategy == "HighestReputation"@ && meta.contains_key(q.anchor) ==> forall|j: int|
                0 <= j < all.len() && meta.contains_key((#[trigger] all[j]).anchor)
                    ==> meta[q.anchor].reputation_score >= meta[all[j].anchor].reputation_score && (j
                    < i ==> meta[q.anchor].reputation_score > meta[all[j].anchor].reputation_score)
            &&& strategy == "WeightedScore"@ && scores.len() == all.len() ==> forall|j: int|
                0 <= j < all.len() ==> scores[i] >= #[trigger] scores[j] && (j < i ==> scores[i]
                    > scores[j])
        }),
{
    let all = candidates(env, env.routing.anchors@, options.request, options.min_reputation);
    let i = choose|i: int|
        #[trigger] is_best(env, options.strategy@[0]@, all, scores, i) && q == all[i];
    let strategy = options.strategy@[0]@;
    reveal_strlit("LowestFee");
    reveal_strlit("FastestSettlement");
    reveal_strlit("HighestReputation");
    reveal_strlit("WeightedScore");
    assert("LowestFee"@.len() != "FastestSettlement"@.len());
    assert("LowestFee"@.len() != "HighestReputation"@.len());
    assert("LowestFee"@.len() != "WeightedScore"@.len());
    assert("WeightedScore"@.len() != "FastestSettlement"@.len());
    assert("WeightedScore"@.len() != "HighestReputation"@.len());
    assert("FastestSettlement"@[0] != "HighestReputation"@[0]);
    if strategy == "WeightedScore"@ && scores.len() == all.len() {
        assert forall|j: int| 0 <= j < all.len() implies scores[i] >= #[trigger] scores[j] && (j < i
            ==> scores[i] > scores[j]) by {
            assert(score_at(scores, j) == scores[j]);
            let other = all[j];
        }
    }
    i
}

/// A ranking lists only quotes that have neither run out nor been invalidated,
/// the latest ones of listed anchors that are active, reputable enough and not on
/// the blacklist; and it is in the order of the scores, highest first, leaving
/// out none with a higher score than one that it lists. A limit other than zero
/// is kept, and no more is left out than it asks for.
pub proof fn rankings_are_in_order(
    env: Ledger,
    min_reputation: u32,
    scores: Seq<u64>,
    limit: u32,
    r: Seq<Quote>,
) -> (order: Seq<usize>)
    requires
        is_ranked_selection(
            eligible(env, env.routing.anchors@, min_reputation),
            scores,
            limit,
            r,
        ),
    ensures
        ({
            let all = eligible(env, env.routing.anchors@, min_reputation);
            &&& order.len() == all.len()
            &&& order.no_duplicates()
            &&& r.len() <= all.len()
            &&& limit != 0 ==> r.len() <= limit
            &&& r.len() < all.len() ==> limit != 0 && r.len() == limit
            &&& forall|i: int|
                0 <= i < order.len() ==> (#[trigger] order[i]) < all.len()
            &&& forall|i: int| 0 <= i < r.len() ==> #[trigger] r[i] == all[order[i] as int]
            &&& scores.len() == all.len() ==> forall|i: int, j: int|
                0 <= i < j < order.len() ==> {
                    let a = #[trigger] order[i];
                    let b = #[trigger] order[j];
                    scores[a as int] > scores[b as int] || (scores[a as int] == scores[b as int] && a
                        < b)
                }
        }),
{
    let all = eligible(env, env.routing.anchors@, min_reputation);
    let n = all.len() as int;
    let order = choose|order: Seq<usize>|
        {
            &&& is_sorted_order(ranks(scores, n), order)
            &&& lists_each(order, n)
            &&& r.len() == (if limit == 0 || n <= limit {
                n
            } else {
                limit as int
            })
            &&& #[trigger] picks(all, order, r)
        };
    if scores.len() == all.len() {
        assert forall|i: int, j: int| 0 <= i < j < order.len() implies ({
            let a = #[trigger] order[i];
            let b = #[trigger] order[j];
            scores[a as int] > scores[b as int] || (scores[a as int] == scores[b as int] && a < b)
        }) by {
            let a = ranks(scores, n)[order[i] as int];
            let b = ranks(scores, n)[order[j] as int];
            assert(a.key == scores[order[i] as int]);
            assert(b.key == scores[order[j] as int]);
        }
    }
    order
}

/// What takes part in a ranking, in the terms of the records.
pub proof fn ranked_quotes_are_live(env: Ledger, anchor: Address, min_reputation: u32)
    ensures
        is_eligible(env, anchor, min_reputation) <==> {
            let q = env.quotes.records@[(anchor, env.quotes.latest@[anchor])];
            &&& !env.routing.blacklist@.contains_key(anchor)
            &&& env.routing.metadata@.contains_key(anchor)
            &&& env.routing.metadata@[anchor].is_active
            &&& min_reputation <= env.routing.metadata@[anchor].reputation_score
            &&& env.quotes.latest@.contains_key(anchor)
            &&& env.quotes.records@.contains_key((anchor, env.quotes.latest@[anchor]))
            &&& env.clock.timestamp < q.valid_until
            &&& !(env.quotes.lifecycle@.contains_key((anchor, q.quote_id))
                && env.quotes.lifecycle@[(anchor, q.quote_id)] == QuoteLifecycleState::Invalidated)
        },
{
}

/// The quotes that take part in a ranking are those of the eligible anchors, in
/// their order: each comes from one, and each has one.
pub proof fn rankings_draw_on_every_eligible_anchor(
    env: Ledger,
    anchors: Seq<Address>,
    min_reputation: u32,
)
    ensures
        eligible(env, anchors, min_reputation) == anchors.filter(
            |a: Address| is_eligible(env, a, min_reputation),
        ).map_values(|a: Address| env.quotes.records@[(a, env.quotes.latest@[a])]),
    decreases anchors.len(),
{
    let keep = |a: Address| is_eligible(env, a, min_reputation);
    let quote = |a: Address| env.quotes.records@[(a, env.quotes.latest@[a])];
    reveal(Seq::filter);
    if anchors.len() > 0 {
        let rest = anchors.drop_last();
        rankings_draw_on_every_eligible_anchor(env, rest, min_reputation);
        if keep(anchors.last()) {
            assert(anchors.filter(keep) == rest.filter(keep).push(anchors.last()));
            assert(rest.filter(keep).push(anchors.last()).map_values(quote) =~= rest.filter(
                keep,
            ).map_values(quote).push(quote(anchors.last())));
        } else {
            assert(anchors.filter(keep) == rest.filter(keep));
        }
    } else {
        assert(anchors.filter(keep).map_values(quote) =~= Seq::<Quote>::empty());
    }
}

/// The quotes that a request may be routed to are those of the anchors with one,
/// in their order.
pub proof fn requests_draw_on_every_fitting_anchor(
    env: Ledger,
    anchors: Seq<Address>,
    request: RoutingRequest,
    min_reputation: u32,
)
    ensures
        candidates(env, anchors, request, min_reputation) == anchors.filter(
            |a: Address| is_candidate(env, a, request, min_reputation),
        ).map_values(|a: Address| env.quotes.records@[(a, env.quotes.latest@[a])]),
    decreases anchors.len(),
{
    let keep = |a: Address| is_candidate(env, a, request, min_reputation);
    let quote = |a: Address| env.quotes.records@[(a, env.quotes.latest@[a])];
    reveal(Seq::filter);
    if anchors.len() > 0 {
        let rest = anchors.drop_last();
        requests_draw_on_every_fitting_anchor(env, rest, request, min_reputation);
        if keep(anchors.last()) {
            assert(anchors.filter(keep) == rest.filter(keep).push(anchors.last()));
            assert(rest.filter(keep).push(anchors.last()).map_values(quote) =~= rest.filter(
                keep,
            ).map_values(quote).push(quote(anchors.last())));
        } else {
            assert(anchors.filter(keep) == rest.filter(keep));
        }
    } else {
        assert(anchors.filter(keep).map_values(quote) =~= Seq::<Quote>::empty());
    }
}

/// Weights are taken exactly where the three add up to a thousand.
pub proof fn weights_add_up(fee: u32, speed: u32, reputation: u32)
    ensures
        weights_refusal(fee, speed, reputation) is None <==> fee + speed + reputation == 1000,
        fee + speed + reputation != 1000 ==> weights_refusal(fee, speed, reputation) == Some(
            ContractError::Code(ErrorCode::InvalidWeights),
        ),
{
}

/// A quote is scored by its own fee and by the settlement time and the reputation
/// of its anchor; an anchor of which nothing is known is taken to settle last and
/// to have no reputation.
pub proof fn scores_go_by_the_records(env: Ledger, q: Quote)
    ensures
        terms_of(env, q).fee == q.fee_percentage,
        env.routing.metadata@.contains_key(q.anchor) ==> {
            &&& terms_of(env, q).settlement == env.routing.metadata@[q.anchor].average_settlement_time
            &&& terms_of(env, q).reputation == env.routing.metadata@[q.anchor].reputation_score
        },
        !env.routing.metadata@.contains_key(q.anchor) ==> terms_of(env, q).settlement == u64::MAX
            && terms_of(env, q).reputation == 0,
{
}

/// The bounds that scores are normalised against are the least ones: each is
/// zero, or is reached by one of the quotes.
pub proof fn bounds_are_reached(env: Ledger, quotes: Seq<Quote>)
    ensures
        bounds_of(env, quotes).max_fee == 0 || exists|i: int|
            0 <= i < quotes.len() && (#[trigger] quotes[i]).fee_percentage == bounds_of(
                env,
                quotes,
            ).max_fee,
        bounds_of(env, quotes).max_settlement == 0 || exists|i: int|
            0 <= i < quotes.len() && env.routing.metadata@.contains_key(
                (#[trigger] quotes[i]).anchor,
            ) && env.routing.metadata@[quotes[i].anchor].average_settlement_time == bounds_of(
                env,
                quotes,
            ).max_settlement,
        bounds_of(env, quotes).max_reputation == 0 || exists|i: int|
            0 <= i < quotes.len() && env.routing.metadata@.contains_key(
                (#[trigger] quotes[i]).anchor,
            ) && env.routing.metadata@[quotes[i].anchor].reputation_score == bounds_of(
                env,
                quotes,
            ).max_reputation,
    decreases quotes.len(),
{
    if quotes.len() > 0 {
        let rest = quotes.drop_last();
        bounds_are_reached(env, rest);
        let n = quotes.len() - 1;
        assert(quotes[n] == quotes.last());
        assert forall|i: int| 0 <= i < rest.len() implies rest[i] == #[trigger] quotes[i] by {}
        let b = bounds_of(env, rest);
        if b.max_fee != 0 {
            let i = choose|i: int|
                0 <= i < rest.len() && (#[trigger] rest[i]).fee_percentage == b.max_fee;
            assert(quotes[i] == rest[i]);
        }
        if b.max_settlement != 0 {
            let i = choose|i: int|
                0 <= i < rest.len() && env.routing.metadata@.contains_key(
                    (#[trigger] rest[i]).anchor,
                ) && env.routing.metadata@[rest[i].anchor].average_settlement_time
                    == b.max_settlement;
            assert(quotes[i] == rest[i]);
        }
        if b.max_reputation != 0 {
            let i = choose|i: int|
                0 <= i < rest.len() && env.routing.metadata@.contains_key(
                    (#[trigger] rest[i]).anchor,
                ) && env.routing.metadata@[rest[i].anchor].reputation_score == b.max_reputation;
            assert(quotes[i] == rest[i]);
        }
    }
}

/// Where every quote is filed under its anchor, a transaction is routed to a
/// quote that names the anchor it is the latest of.
pub proof fn routed_quotes_name_their_anchor(
    env: Ledger,
    options: RoutingOptions,
    scores: Seq<u64>,
    q: Quote,
)
    requires
        is_route(env, options, scores, q),
        records_are_filed(env.quotes.records@),
    ensures
        env.routing.anchors@.contains(q.anchor),
        env.routing.metadata@.contains_key(q.anchor),
        env.routing.metadata@[q.anchor].is_active,
        env.quotes.latest@[q.anchor] == q.quote_id,
        env.quotes.records@[(q.anchor, q.quote_id)] == q,
{
    routed_quotes_meet_the_request(env, options, scores, q);
    let k = choose|k: int|
        {
            let a = #[trigger] env.routing.anchors@[k];
            &&& 0 <= k < env.routing.anchors@.len()
            &&& !env.routing.blacklist@.contains_key(a)
            &&& env.routing.metadata@.contains_key(a)
            &&& env.routing.metadata@[a].is_active
            &&& options.min_reputation <= env.routing.metadata@[a].reputation_score
            &&& env.services.configured@.contains_key(a)
            &&& env.services.configured@[a].services@.contains(3u32)
            &&& env.quotes.latest@.contains_key(a)
            &&& env.quotes.records@.contains_key((a, env.quotes.latest@[a]))
            &&& env.quotes.records@[(a, env.quotes.latest@[a])] == q
            &&& !(env.quotes.lifecycle@.contains_key((a, q.quote_id))
                && env.quotes.lifecycle@[(a, q.quote_id)] == QuoteLifecycleState::Invalidated)
        };
    let a = env.routing.anchors@[k];
    assert(env.quotes.records@.contains_key((a, env.quotes.latest@[a])));
}

} // verus!
