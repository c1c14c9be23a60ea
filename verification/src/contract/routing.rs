//! Which quote a transaction is routed to.
use crate::address::Address;
use crate::contract::events::{Event, WebhookEvent};
use crate::contract::kyc::{compliance_passed, kyc_status_in};
use crate::contract::ledger::{
    either, follows, refuse_when, AnchorKitContract, ContractError, Ledger,
};
use crate::contract::quotes::{
    code_refusal, is_invalidated, quotes_are_filed, validate_currency_code,
};
use crate::contract::types::{
    Bytes, KycStatus, Quote, QuoteLifecycleState, RoutingOptions, RoutingRequest, SERVICE_QUOTES,
};
use crate::errors::ErrorCode;
use crate::service_management::lists_code;
use crate::sorting::{is_sorted_order, lists_each, sorted_order, Highest};
use crate::text::same_text;
use vstd::prelude::*;

verus! {

/// Whether an anchor is on the blacklist.
pub open spec fn is_blacklisted(env: Ledger, anchor: Address) -> bool {
    env.routing.blacklist@.contains_key(anchor)
}

/// Whether an anchor has configured the quote service.
pub open spec fn offers_quotes(env: Ledger, anchor: Address) -> bool {
    env.services.configured@.contains_key(anchor)
        && env.services.configured@[anchor].services@.contains(SERVICE_QUOTES)
}

/// The latest stored quote of an anchor, where there is one.
pub open spec fn latest_quote(env: Ledger, anchor: Address) -> Option<Quote> {
    if env.quotes.latest@.contains_key(anchor) && env.quotes.records@.contains_key(
        (anchor, env.quotes.latest@[anchor]),
    ) {
        Some(env.quotes.records@[(anchor, env.quotes.latest@[anchor])])
    } else {
        None
    }
}

/// Whether an anchor takes part in routing: it has metadata, is active and is
/// not on the blacklist.
pub open spec fn is_routable(env: Ledger, anchor: Address) -> bool {
    &&& !is_blacklisted(env, anchor)
    &&& env.routing.metadata@.contains_key(anchor)
    &&& env.routing.metadata@[anchor].is_active
}

/// Whether a quote answers a request: it is for the requested assets, has not
/// run out and covers the amount. A largest amount of zero means no limit.
pub open spec fn answers(q: Quote, request: RoutingRequest, now: u64) -> bool {
    &&& q.base_asset@ == request.base_asset@
    &&& q.quote_asset@ == request.quote_asset@
    &&& q.valid_until > now
    &&& request.amount >= q.minimum_amount
    &&& q.maximum_amount == 0 || request.amount <= q.maximum_amount
}

/// Whether an anchor has a candidate for a request.
pub open spec fn is_candidate(
    env: Ledger,
    anchor: Address,
    request: RoutingRequest,
    min_reputation: u32,
) -> bool {
    &&& is_routable(env, anchor)
    &&& env.routing.metadata@[anchor].reputation_score >= min_reputation
    &&& latest_quote(env, anchor) is Some
    &&& offers_quotes(env, anchor)
    &&& answers(latest_quote(env, anchor)->0, request, env.clock.timestamp)
    &&& !is_invalidated(env, anchor, latest_quote(env, anchor)->0.quote_id)
}

/// The candidates for a request, in the order of the anchors.
pub open spec fn candidates(
    env: Ledger,
    anchors: Seq<Address>,
    request: RoutingRequest,
    min_reputation: u32,
) -> Seq<Quote>
    decreases anchors.len(),
{
    if anchors.len() == 0 {
        Seq::empty()
    } else {
        let rest = candidates(env, anchors.drop_last(), request, min_reputation);
        if is_candidate(env, anchors.last(), request, min_reputation) {
            rest.push(latest_quote(env, anchors.last())->0)
        } else {
            rest
        }
    }
}

/// The refusal of a subject whose identity check stands in this status.
pub open spec fn kyc_gate(status: KycStatus) -> Option<ContractError> {
    match status {
        KycStatus::Approved => None,
        KycStatus::Pending => Some(ContractError::Code(ErrorCode::KycPending)),
        KycStatus::Rejected => Some(ContractError::Code(ErrorCode::KycRejected)),
        KycStatus::Expired => Some(ContractError::Code(ErrorCode::KycExpired)),
        KycStatus::NotSubmitted => Some(ContractError::Code(ErrorCode::KycNotFound)),
        KycStatus::Reopened => Some(ContractError::Code(ErrorCode::ComplianceNotMet)),
    }
}

/// The refusal of a request with a bad asset code.
pub open spec fn request_refusal(request: RoutingRequest) -> Option<ContractError> {
    either(code_refusal(request.base_asset@), code_refusal(request.quote_asset@))
}

/// The refusal of a subject that does not meet what the options ask of it.
pub open spec fn subject_refusal(env: Ledger, options: RoutingOptions) -> Option<ContractError> {
    either(
        refuse_when(
            options.require_compliance && !compliance_passed(env, options.subject),
            ErrorCode::ComplianceNotMet,
        ),
        if options.require_kyc {
            kyc_gate(kyc_status_in(env, options.subject))
        } else {
            None
        },
    )
}

/// Why a transaction cannot be routed.
pub open spec fn route_refusal(env: Ledger, options: RoutingOptions) -> Option<ContractError> {
    either(
        request_refusal(options.request),
        either(
            refuse_when(
                candidates(
                    env,
                    env.routing.anchors@,
                    options.request,
                    options.min_reputation,
                ).len() == 0,
                ErrorCode::NoQuotesAvailable,
            ),
            either(
                subject_refusal(env, options),
                refuse_when(options.strategy@.len() == 0, ErrorCode::NoQuotesAvailable),
            ),
        ),
    )
}

/// Whether the preferred anchor has a candidate for the request.
pub open spec fn is_preferred(env: Ledger, anchor: Address, options: RoutingOptions) -> bool {
    is_candidate(env, anchor, options.request, options.min_reputation)
}

/// Why a transaction with a preferred anchor cannot be routed.
pub open spec fn fallback_refusal(
    env: Ledger,
    options: RoutingOptions,
    preferred: Address,
) -> Option<ContractError> {
    if is_preferred(env, preferred, options) {
        either(request_refusal(options.request), subject_refusal(env, options))
    } else {
        route_refusal(env, options)
    }
}

/// What a quote is worth under a strategy: the larger, the better. Under the
/// weighted strategy this is the score given for it; under a name that stands
/// for no strategy all quotes are alike.
pub open spec fn merit(env: Ledger, strategy: Seq<char>, q: Quote, score: u64) -> int {
    let known = env.routing.metadata@.contains_key(q.anchor);
    let meta = env.routing.metadata@[q.anchor];
    if strategy == "LowestFee"@ {
        -(q.fee_percentage as int)
    } else if strategy == "FastestSettlement"@ {
        if known {
            -(meta.average_settlement_time as int)
        } else {
            -(u64::MAX as int)
        }
    } else if strategy == "HighestReputation"@ {
        if known {
            meta.reputation_score as int
        } else {
            0
        }
    } else if strategy == "WeightedScore"@ {
        score as int
    } else {
        0
    }
}

/// The score given for a candidate, zero where none was given.
pub open spec fn score_at(scores: Seq<u64>, i: int) -> u64 {
    if 0 <= i < scores.len() {
        scores[i]
    } else {
        0
    }
}

/// Whether the `i`th quote is the first of the best ones.
pub open spec fn is_best(
    env: Ledger,
    strategy: Seq<char>,
    quotes: Seq<Quote>,
    scores: Seq<u64>,
    i: int,
) -> bool {
    &&& 0 <= i < quotes.len()
    &&& forall|j: int|
        0 <= j < quotes.len() ==> merit(env, strategy, #[trigger] quotes[j], score_at(scores, j))
            <= merit(env, strategy, quotes[i], score_at(scores, i))
    &&& forall|j: int|
        0 <= j < i ==> merit(env, strategy, #[trigger] quotes[j], score_at(scores, j)) < merit(
            env,
            strategy,
            quotes[i],
            score_at(scores, i),
        )
}

/// Whether a quote is the one that a transaction is routed to.
pub open spec fn is_route(env: Ledger, options: RoutingOptions, scores: Seq<u64>, q: Quote) -> bool {
    let all = candidates(env, env.routing.anchors@, options.request, options.min_reputation);
    exists|i: int|
        #[trigger] is_best(env, options.strategy@[0]@, all, scores, i) && q == all[i]
}

/// The announcement that a transaction was routed to a quote.
pub open spec fn announces_route(event: Event, q: Quote, now: u64) -> bool {
    &&& event is RouteSelected
    &&& event->RouteSelected_0.event_type@ == "transaction_routed"@
    &&& event->RouteSelected_0.transaction_id == q.quote_id
    &&& event->RouteSelected_0.timestamp == now
    &&& event->RouteSelected_0.payload_hash@.len() == 0
}

/// The strategies, by name.
#[derive(Clone, Copy)]
enum Strategy {
    LowestFee,
    FastestSettlement,
    HighestReputation,
    WeightedScore,
    Unknown,
}

spec fn names(s: Strategy, name: Seq<char>) -> bool {
    s == (if name == "LowestFee"@ {
        Strategy::LowestFee
    } else if name == "FastestSettlement"@ {
        Strategy::FastestSettlement
    } else if name == "HighestReputation"@ {
        Strategy::HighestReputation
    } else if name == "WeightedScore"@ {
        Strategy::WeightedScore
    } else {
        Strategy::Unknown
    })
}

fn strategy_named(name: &String) -> (s: Strategy)
    ensures
        names(s, name@),
{
    if same_text(name.as_str(), "LowestFee") {
        Strategy::LowestFee
    } else if same_text(name.as_str(), "FastestSettlement") {
        Strategy::FastestSettlement
    } else if same_text(name.as_str(), "HighestReputation") {
        Strategy::HighestReputation
    } else if same_text(name.as_str(), "WeightedScore") {
        Strategy::WeightedScore
    } else {
        Strategy::Unknown
    }
}

fn merit_of(env: &Ledger, strategy: Strategy, Ghost(name): Ghost<Seq<char>>, q: &Quote, score: u64) -> (m:
    i128)
    requires
        names(strategy, name),
    ensures
        m == merit(*env, name, *q, score),
{
    match strategy {
        Strategy::LowestFee => -(q.fee_percentage as i128),
        Strategy::FastestSettlement => match env.routing.metadata.get(&q.anchor) {
            Some(meta) => -(meta.average_settlement_time as i128),
            None => -(u64::MAX as i128),
        },
        Strategy::HighestReputation => match env.routing.metadata.get(&q.anchor) {
            Some(meta) => meta.reputation_score as i128,
            None => 0,
        },
        Strategy::WeightedScore => score as i128,
        Strategy::Unknown => 0,
    }
}

fn score_of(scores: &Vec<u64>, i: usize) -> (s: u64)
    ensures
        s == score_at(scores@, i as int),
{
    if i < scores.len() {
        scores[i]
    } else {
        0
    }
}

/// What a quote is scored by: its fee, and how fast and how reputable its
/// anchor is.
#[derive(Clone, Copy, Debug, PartialEq, Eq, Structural)]
pub struct ScoreTerms {
    pub fee: u32,
    pub settlement: u64,
    pub reputation: u32,
}

/// The largest terms of a set of quotes, against which scores are normalised.
#[derive(Clone, Copy, Debug, PartialEq, Eq, Structural)]
pub struct ScoreBounds {
    pub max_fee: u32,
    pub max_settlement: u64,
    pub max_reputation: u32,
}

/// The terms of a quote. An anchor without metadata is taken to be as slow and
/// as little reputable as can be.
pub open spec fn terms_of(env: Ledger, q: Quote) -> ScoreTerms {
    if env.routing.metadata@.contains_key(q.anchor) {
        let meta = env.routing.metadata@[q.anchor];
        ScoreTerms {
            fee: q.fee_percentage,
            settlement: meta.average_settlement_time,
            reputation: meta.reputation_score,
        }
    } else {
        ScoreTerms { fee: q.fee_percentage, settlement: u64::MAX, reputation: 0 }
    }
}

/// The bounds after one more quote. An anchor without metadata does not count
/// for settlement and reputation.
pub open spec fn widened(env: Ledger, b: ScoreBounds, q: Quote) -> ScoreBounds {
    let t = terms_of(env, q);
    let known = env.routing.metadata@.contains_key(q.anchor);
    ScoreBounds {
        max_fee: if t.fee > b.max_fee {
            t.fee
        } else {
            b.max_fee
        },
        max_settlement: if known && t.settlement > b.max_settlement {
            t.settlement
        } else {
            b.max_settlement
        },
        max_reputation: if known && t.reputation > b.max_reputation {
            t.reputation
        } else {
            b.max_reputation
        },
    }
}

/// The largest terms of the quotes.
pub open spec fn bounds_of(env: Ledger, quotes: Seq<Quote>) -> ScoreBounds
    decreases quotes.len(),
{
    if quotes.len() == 0 {
        ScoreBounds { max_fee: 0, max_settlement: 0, max_reputation: 0 }
    } else {
        widened(env, bounds_of(env, quotes.drop_last()), quotes.last())
    }
}

/// The terms that a quote is scored by.
pub fn score_terms(env: &Ledger, q: &Quote) -> (t: ScoreTerms)
    ensures
        t == terms_of(*env, *q),
{
    match env.routing.metadata.get(&q.anchor) {
        Some(meta) => ScoreTerms {
            fee: q.fee_percentage,
            settlement: meta.average_settlement_time,
            reputation: meta.reputation_score,
        },
        None => ScoreTerms { fee: q.fee_percentage, settlement: u64::MAX, reputation: 0 },
    }
}

/// The bounds against which the scores of the quotes are normalised.
pub fn score_bounds(env: &Ledger, quotes: &Vec<Quote>) -> (b: ScoreBounds)
    ensures
        b == bounds_of(*env, quotes@),
{
    let mut b = ScoreBounds { max_fee: 0, max_settlement: 0, max_reputation: 0 };
    let mut i: usize = 0;
    assert(quotes@.take(0) =~= Seq::<Quote>::empty());
    while i < quotes.len()
        invariant
            0 <= i <= quotes@.len(),
            b == bounds_of(*env, quotes@.take(i as int)),
        decreases quotes@.len() - i,
    {
        proof {
            assert(quotes@.take(i + 1).drop_last() =~= quotes@.take(i as int));
            assert(quotes@.take(i + 1).last() == quotes@[i as int]);
        }
        let q = &quotes[i];
        if q.fee_percentage > b.max_fee {
            b.max_fee = q.fee_percentage;
        }
        if let Some(meta) = env.routing.metadata.get(&q.anchor) {
            if meta.average_settlement_time > b.max_settlement {
                b.max_settlement = meta.average_settlement_time;
            }
            if meta.reputation_score > b.max_reputation {
                b.max_reputation = meta.reputation_score;
            }
        }
        i = i + 1;
    }
    assert(quotes@.take(quotes@.len() as int) =~= quotes@);
    b
}

/// No quote of an anchor with metadata exceeds the bounds of the quotes, so
/// that no normalised term exceeds one.
pub proof fn terms_stay_within_bounds(env: Ledger, quotes: Seq<Quote>, i: int)
    requires
        0 <= i < quotes.len(),
        env.routing.metadata@.contains_key(quotes[i].anchor),
    ensures
        terms_of(env, quotes[i]).fee <= bounds_of(env, quotes).max_fee,
        terms_of(env, quotes[i]).settlement <= bounds_of(env, quotes).max_settlement,
        terms_of(env, quotes[i]).reputation <= bounds_of(env, quotes).max_reputation,
    decreases quotes.len(),
{
    if i < quotes.len() - 1 {
        terms_stay_within_bounds(env, quotes.drop_last(), i);
        assert(quotes.drop_last()[i] == quotes[i]);
    }
}

/// The ledger after a transaction was routed to a quote.
pub open spec fn routed(
    before: Ledger,
    after: Ledger,
    options: &RoutingOptions,
    scores: &Vec<u64>,
    out: Quote,
) -> bool {
    &&& is_route(before, *options, scores@, out)
    &&& after == (Ledger { events: after.events, ..before })
    &&& after.events@ == before.events@.push(after.events@.last())
    &&& announces_route(
        after.events@.last(),
        out,
        before.clock.timestamp,
    )
}

/// The ledger after a transaction was routed with a preferred anchor.
pub open spec fn routed_with_fallback(
    before: Ledger,
    after: Ledger,
    options: &RoutingOptions,
    preferred_anchor: Address,
    scores: &Vec<u64>,
    out: Quote,
) -> bool {
    &&& after == (Ledger { events: after.events, ..before })
    &&& if is_preferred(before, preferred_anchor, *options) {
        let q = latest_quote(before, preferred_anchor)->0;
        &&& out == q
        &&& after.events@ == before.events@.push(Event::QuoteRouted(q.quote_id))
    } else {
        &&& is_route(before, *options, scores@, out)
        &&& after.events@ == before.events@.push(Event::QuoteFallback).push(
            after.events@.last(),
        )
        &&& announces_route(
            after.events@.last(),
            out,
            before.clock.timestamp,
        )
    }
}

impl AnchorKitContract {
    /// Whether an anchor is on the blacklist.
    pub fn is_anchor_blacklisted(env: &Ledger, anchor: Address) -> (r: bool)
        ensures
            r == is_blacklisted(*env, anchor),
    {
        env.routing.blacklist.has(&anchor)
    }

    pub(crate) fn advertises_quote_service(env: &Ledger, anchor: &Address) -> (r: bool)
        ensures
            r == offers_quotes(*env, *anchor),
    {
        match env.services.configured.get(anchor) {
            Some(s) => lists_code(&s.services, SERVICE_QUOTES),
            None => false,
        }
    }

    fn latest_of<'a>(env: &'a Ledger, anchor: &Address) -> (r: Option<&'a Quote>)
        ensures
            match r {
                Some(q) => latest_quote(*env, *anchor) == Some(*q),
                None => latest_quote(*env, *anchor) is None,
            },
    {
        match env.quotes.latest.get(anchor) {
            Some(id) => env.quotes.records.get(&(*anchor, *id)),
            None => None,
        }
    }

    fn takes_part(env: &Ledger, anchor: &Address) -> (r: bool)
        ensures
            r == is_routable(*env, *anchor),
    {
        if env.routing.blacklist.has(anchor) {
            return false;
        }
        match env.routing.metadata.get(anchor) {
            Some(meta) => meta.is_active,
            None => false,
        }
    }

    fn quote_answers(q: &Quote, request: &RoutingRequest, now: u64) -> (r: bool)
        ensures
            r == answers(*q, *request, now),
    {
        same_text(q.base_asset.as_str(), request.base_asset.as_str()) && same_text(
            q.quote_asset.as_str(),
            request.quote_asset.as_str(),
        ) && q.valid_until > now && request.amount >= q.minimum_amount && (q.maximum_amount == 0
            || request.amount <= q.maximum_amount)
    }

    fn not_invalidated(env: &Ledger, anchor: Address, quote_id: u64) -> (r: bool)
        ensures
            r == !is_invalidated(*env, anchor, quote_id),
    {
        match Self::get_quote_lifecycle_state(env, anchor, quote_id) {
            QuoteLifecycleState::Active => true,
            QuoteLifecycleState::Invalidated => false,
        }
    }

    fn candidate_of<'a>(
        env: &'a Ledger,
        anchor: &Address,
        request: &RoutingRequest,
        min_reputation: u32,
    ) -> (r: Option<&'a Quote>)
        ensures
            match r {
                Some(q) => is_candidate(*env, *anchor, *request, min_reputation) && latest_quote(
                    *env,
                    *anchor,
                ) == Some(*q),
                None => !is_candidate(*env, *anchor, *request, min_reputation),
            },
    {
        if !Self::takes_part(env, anchor) {
            return None;
        }
        if let Some(meta) = env.routing.metadata.get(anchor) {
            if meta.reputation_score < min_reputation {
                return None;
            }
        }
        match Self::latest_of(env, anchor) {
            None => None,
            Some(q) => {
                if !Self::advertises_quote_service(env, anchor) {
                    return None;
                }
                if !Self::quote_answers(q, request, env.clock.timestamp) {
                    return None;
                }
                if !Self::not_invalidated(env, *anchor, q.quote_id) {
                    return None;
                }
                Some(q)
            },
        }
    }

    /// The quotes that a request may be routed to, in the order in which their
    /// anchors were added.
    pub fn routing_candidates(env: &Ledger, options: &RoutingOptions) -> (r: Vec<Quote>)
        ensures
            r@ == candidates(
                *env,
                env.routing.anchors@,
                options.request,
                options.min_reputation,
            ),
    {
        let mut found: Vec<Quote> = Vec::new();
        let mut i: usize = 0;
        let ghost list = env.routing.anchors@;
        assert(list.take(0) =~= Seq::<Address>::empty());
        while i < env.routing.anchors.len()
            invariant
                0 <= i <= list.len(),
                list == env.routing.anchors@,
                found@ == candidates(
                    *env,
                    list.take(i as int),
                    options.request,
                    options.min_reputation,
                ),
            decreases list.len() - i,
        {
            let anchor = env.routing.anchors[i];
            proof {
                assert(list.take(i + 1).drop_last() =~= list.take(i as int));
                assert(list.take(i + 1).last() == anchor);
            }
            if let Some(q) = Self::candidate_of(
                env,
                &anchor,
                &options.request,
                options.min_reputation,
            ) {
                found.push(q.clone());
            }
            i = i + 1;
        }
        assert(list.take(list.len() as int) =~= list);
        found
    }

    pub(crate) fn require_kyc(env: &Ledger, subject: Address) -> (r: Result<(), ContractError>)
        ensures
            follows(r, kyc_gate(kyc_status_in(*env, subject))),
    {
        match Self::get_kyc_status(env, subject) {
            KycStatus::Approved => Ok(()),
            KycStatus::Pending => Err(ContractError::Code(ErrorCode::KycPending)),
            KycStatus::Rejected => Err(ContractError::Code(ErrorCode::KycRejected)),
            KycStatus::Expired => Err(ContractError::Code(ErrorCode::KycExpired)),
            KycStatus::NotSubmitted => Err(ContractError::Code(ErrorCode::KycNotFound)),
            KycStatus::Reopened => Err(ContractError::Code(ErrorCode::ComplianceNotMet)),
        }
    }

    fn require_request(request: &RoutingRequest) -> (r: Result<(), ContractError>)
        ensures
            follows(r, request_refusal(*request)),
    {
        if let Err(e) = validate_currency_code(&request.base_asset) {
            return Err(e);
        }
        validate_currency_code(&request.quote_asset)
    }

    fn require_subject(env: &Ledger, options: &RoutingOptions) -> (r: Result<(), ContractError>)
        ensures
            follows(r, subject_refusal(*env, *options)),
    {
        if options.require_compliance && !Self::has_passed_compliance(env, &options.subject) {
            return Err(ContractError::Code(ErrorCode::ComplianceNotMet));
        }
        if options.require_kyc {
            return Self::require_kyc(env, options.subject);
        }
        Ok(())
    }

    /// The best candidate under the first strategy named in the options; of
    /// equals the first one wins.
    fn best_route(env: &Ledger, options: &RoutingOptions, scores: &Vec<u64>) -> (r: Result<
        Quote,
        ContractError,
    >)
        ensures
            follows(r, route_refusal(*env, *options)),
            r is Ok ==> is_route(*env, *options, scores@, r->Ok_0),
    {
        if let Err(e) = Self::require_request(&options.request) {
            return Err(e);
        }
        let found = Self::routing_candidates(env, options);
        if found.len() == 0 {
            return Err(ContractError::Code(ErrorCode::NoQuotesAvailable));
        }
        if let Err(e) = Self::require_subject(env, options) {
            return Err(e);
        }
        if options.strategy.len() == 0 {
            return Err(ContractError::Code(ErrorCode::NoQuotesAvailable));
        }
        let strategy = strategy_named(&options.strategy[0]);
        let ghost name = options.strategy@[0]@;
        let mut best: usize = 0;
        let mut best_merit: i128 = merit_of(
            env,
            strategy,
            Ghost(name),
            &found[0],
            score_of(scores, 0),
        );
        let mut i: usize = 1;
        while i < found.len()
            invariant
                1 <= i <= found@.len(),
                0 <= best < i,
                names(strategy, name),
                best_merit == merit(
                    *env,
                    name,
                    found@[best as int],
                    score_at(scores@, best as int),
                ),
                forall|j: int|
                    0 <= j < i ==> merit(*env, name, #[trigger] found@[j], score_at(scores@, j))
                        <= best_merit,
                forall|j: int|
                    0 <= j < best ==> merit(*env, name, #[trigger] found@[j], score_at(scores@, j))
                        < best_merit,
            decreases found@.len() - i,
        {
            let m: i128 = merit_of(env, strategy, Ghost(name), &found[i], score_of(scores, i));
            if m > best_merit {
                best = i;
                best_merit = m;
            }
            i = i + 1;
        }
        assert(is_best(*env, name, found@, scores@, best as int));
        Ok(found[best].clone())
    }

    fn announce_route(env: &mut Ledger, quote_id: u64)
        ensures
            *final(env) == (Ledger { events: final(env).events, ..*old(env) }),
            final(env).events@ == old(env).events@.push(final(env).events@.last()),
            forall|q: Quote|
                q.quote_id == quote_id ==> #[trigger] announces_route(
                    final(env).events@.last(),
                    q,
                    old(env).clock.timestamp,
                ),
    {
        let timestamp: u64 = env.clock.timestamp;
        env.publish(
            Event::RouteSelected(
                WebhookEvent {
                    event_type: "transaction_routed",
                    transaction_id: quote_id,
                    timestamp,
                    payload_hash: Bytes::new(),
                },
            ),
        );
    }

    /// Routes a transaction to the best candidate under the first strategy
    /// named in the options; of equals the first one wins. `scores` holds the
    /// weighted score of each candidate, as an order-preserving number.
    pub fn route_transaction(env: &mut Ledger, options: &RoutingOptions, scores: &Vec<u64>) -> (r:
        Result<Quote, ContractError>)
        ensures
            follows(r, route_refusal(*old(env), *options)),
            r is Err ==> *final(env) == *old(env),
            r is Ok ==> routed(*old(env), *final(env), options, scores, r->Ok_0),
    {
        match Self::best_route(env, options, scores) {
            Err(e) => Err(e),
            Ok(chosen) => {
                Self::announce_route(env, chosen.quote_id);
                Ok(chosen)
            },
        }
    }

    /// Routes a transaction to the preferred anchor where it has a candidate;
    /// otherwise announces the fallback and routes it as
    /// [`Self::route_transaction`] does. What the options ask of the subject is
    /// asked either way.
    pub fn route_with_fallback(
        env: &mut Ledger,
        options: &RoutingOptions,
        preferred_anchor: Address,
        scores: &Vec<u64>,
    ) -> (r: Result<Quote, ContractError>)
        ensures
            follows(r, fallback_refusal(*old(env), *options, preferred_anchor)),
            r is Err ==> *final(env) == *old(env),
            r is Ok ==> routed_with_fallback(
                *old(env),
                *final(env),
                options,
                preferred_anchor,
                scores,
                r->Ok_0,
            ),
    {
        let preferred: Option<Quote> = match Self::candidate_of(
            env,
            &preferred_anchor,
            &options.request,
            options.min_reputation,
        ) {
            Some(q) => Some(q.clone()),
            None => None,
        };
        match preferred {
            Some(q) => {
                if let Err(e) = Self::require_request(&options.request) {
                    return Err(e);
                }
                if let Err(e) = Self::require_subject(env, options) {
                    return Err(e);
                }
                env.publish(Event::QuoteRouted(q.quote_id));
                Ok(q)
            },
            None => match Self::best_route(env, options, scores) {
                Err(e) => Err(e),
                Ok(chosen) => {
                    env.publish(Event::QuoteFallback);
                    Self::announce_route(env, chosen.quote_id);
                    Ok(chosen)
                },
            },
        }
    }
}

/// Every candidate is the latest quote of a listed anchor that is active, not
/// on the blacklist and reputable enough, and it answers the request and was
/// not invalidated.
pub proof fn candidates_are_eligible(
    env: Ledger,
    anchors: Seq<Address>,
    request: RoutingRequest,
    min_reputation: u32,
    i: int,
)
    requires
        0 <= i < candidates(env, anchors, request, min_reputation).len(),
    ensures
        exists|k: int|
            {
                &&& 0 <= k < anchors.len()
                &&& is_candidate(env, #[trigger] anchors[k], request, min_reputation)
                &&& latest_quote(env, anchors[k]) == Some(
                    candidates(env, anchors, request, min_reputation)[i],
                )
            },
    decreases anchors.len(),
{
    let rest = candidates(env, anchors.drop_last(), request, min_reputation);
    if i < rest.len() {
        candidates_are_eligible(env, anchors.drop_last(), request, min_reputation, i);
        let k = choose|k: int|
            {
                &&& 0 <= k < anchors.drop_last().len()
                &&& is_candidate(env, #[trigger] anchors.drop_last()[k], request, min_reputation)
                &&& latest_quote(env, anchors.drop_last()[k]) == Some(rest[i])
            };
        assert(anchors[k] == anchors.drop_last()[k]);
    } else {
        assert(anchors[anchors.len() - 1] == anchors.last());
    }
}

/// An anchor with a candidate among the listed ones makes routing possible, as
/// far as quotes go.
pub proof fn an_eligible_anchor_is_found(
    env: Ledger,
    anchors: Seq<Address>,
    request: RoutingRequest,
    min_reputation: u32,
    k: int,
)
    requires
        0 <= k < anchors.len(),
        is_candidate(env, anchors[k], request, min_reputation),
    ensures
        candidates(env, anchors, request, min_reputation).contains(
            latest_quote(env, anchors[k])->0,
        ),
    decreases anchors.len(),
{
    let all = candidates(env, anchors, request, min_reputation);
    let q = latest_quote(env, anchors[k])->0;
    if k == anchors.len() - 1 {
        assert(all.last() == q);
    } else {
        an_eligible_anchor_is_found(env, anchors.drop_last(), request, min_reputation, k);
        let rest = candidates(env, anchors.drop_last(), request, min_reputation);
        let w = choose|w: int| 0 <= w < rest.len() && rest[w] == q;
        assert(all[w] == q);
    }
}

/// Whether an anchor has a quote that is eligible whatever the request: it
/// takes part in routing, is reputable enough, and its latest quote has
/// neither run out nor been invalidated.
pub open spec fn is_eligible(env: Ledger, anchor: Address, min_reputation: u32) -> bool {
    &&& is_routable(env, anchor)
    &&& env.routing.metadata@[anchor].reputation_score >= min_reputation
    &&& latest_quote(env, anchor) is Some
    &&& latest_quote(env, anchor)->0.valid_until > env.clock.timestamp
    &&& !is_invalidated(env, anchor, latest_quote(env, anchor)->0.quote_id)
}

/// The eligible quotes, in the order of the anchors.
pub open spec fn eligible(env: Ledger, anchors: Seq<Address>, min_reputation: u32) -> Seq<Quote>
    decreases anchors.len(),
{
    if anchors.len() == 0 {
        Seq::empty()
    } else {
        let rest = eligible(env, anchors.drop_last(), min_reputation);
        if is_eligible(env, anchors.last(), min_reputation) {
            rest.push(latest_quote(env, anchors.last())->0)
        } else {
            rest
        }
    }
}

/// The refusal of weights that do not add up to a thousand.
pub open spec fn weights_refusal(a: u32, b: u32, c: u32) -> Option<ContractError> {
    refuse_when(a + b + c != 1000, ErrorCode::InvalidWeights)
}

/// Refuses weights that do not add up to a thousand.
pub fn validate_weights(a: u32, b: u32, c: u32) -> (r: Result<(), ContractError>)
    ensures
        follows(r, weights_refusal(a, b, c)),
{
    let sum: u64 = a as u64 + b as u64 + c as u64;
    if sum != 1000 {
        return Err(ContractError::Code(ErrorCode::InvalidWeights));
    }
    Ok(())
}

/// The scores of `n` quotes, as ranks.
pub open spec fn ranks(scores: Seq<u64>, n: int) -> Seq<Highest> {
    Seq::new(n as nat, |i: int| Highest { key: score_at(scores, i) })
}

/// Whether `r` lists the best quotes by score, best first and of equals the
/// earlier first, `limit` of them at most where the limit is not zero.
pub open spec fn is_ranked_selection(
    quotes: Seq<Quote>,
    scores: Seq<u64>,
    limit: u32,
    r: Seq<Quote>,
) -> bool {
    let n = quotes.len() as int;
    exists|order: Seq<usize>|
        {
            &&& is_sorted_order(ranks(scores, n), order)
            &&& lists_each(order, n)
            &&& r.len() == (if limit == 0 || n <= limit {
                n
            } else {
                limit as int
            })
            &&& #[trigger] picks(quotes, order, r)
        }
}

/// Whether `r` consists of the quotes at the first positions of `order`.
pub open spec fn picks(quotes: Seq<Quote>, order: Seq<usize>, r: Seq<Quote>) -> bool {
    forall|i: int| 0 <= i < r.len() ==> #[trigger] r[i] == quotes[order[i] as int]
}

impl AnchorKitContract {
    fn eligible_of<'a>(env: &'a Ledger, anchor: &Address, min_reputation: u32) -> (r: Option<
        &'a Quote,
    >)
        ensures
            match r {
                Some(q) => is_eligible(*env, *anchor, min_reputation) && latest_quote(*env, *anchor)
                    == Some(*q),
                None => !is_eligible(*env, *anchor, min_reputation),
            },
    {
        if !Self::takes_part(env, anchor) {
            return None;
        }
        if let Some(meta) = env.routing.metadata.get(anchor) {
            if meta.reputation_score < min_reputation {
                return None;
            }
        }
        match Self::latest_of(env, anchor) {
            None => None,
            Some(q) => {
                if q.valid_until <= env.clock.timestamp {
                    return None;
                }
                if !Self::not_invalidated(env, *anchor, q.quote_id) {
                    return None;
                }
                Some(q)
            },
        }
    }

    /// The quotes that take part in a ranking, in the order in which their
    /// anchors were added.
    pub fn eligible_quotes(env: &Ledger, min_reputation: u32) -> (r: Vec<Quote>)
        ensures
            r@ == eligible(*env, env.routing.anchors@, min_reputation),
    {
        let mut found: Vec<Quote> = Vec::new();
        let mut i: usize = 0;
        let ghost list = env.routing.anchors@;
        assert(list.take(0) =~= Seq::<Address>::empty());
        while i < env.routing.anchors.len()
            invariant
                0 <= i <= list.len(),
                list == env.routing.anchors@,
                found@ == eligible(*env, list.take(i as int), min_reputation),
            decreases list.len() - i,
        {
            let anchor = env.routing.anchors[i];
            proof {
                assert(list.take(i + 1).drop_last() =~= list.take(i as int));
                assert(list.take(i + 1).last() == anchor);
            }
            if let Some(q) = Self::eligible_of(env, &anchor, min_reputation) {
                found.push(q.clone());
            }
            i = i + 1;
        }
        assert(list.take(list.len() as int) =~= list);
        found
    }

    /// The eligible quotes with the highest scores, highest first; of equals
    /// the earlier one comes first. `scores` holds the score of each eligible
    /// quote; a `max_results` of zero sets no limit.
    pub fn route_anchors(
        env: &Ledger,
        fee_weight: u32,
        speed_weight: u32,
        reputation_weight: u32,
        max_results: u32,
        min_reputation: u32,
        scores: &Vec<u64>,
    ) -> (r: Result<Vec<Quote>, ContractError>)
        ensures
            follows(r, weights_refusal(fee_weight, speed_weight, reputation_weight)),
            r is Ok ==> is_ranked_selection(
                eligible(*env, env.routing.anchors@, min_reputation),
                scores@,
                max_results,
                r->Ok_0@,
            ),
    {
        if let Err(e) = validate_weights(fee_weight, speed_weight, reputation_weight) {
            return Err(e);
        }
        let quotes = Self::eligible_quotes(env, min_reputation);
        let n: usize = quotes.len();
        let mut keys: Vec<Highest> = Vec::new();
        let mut k: usize = 0;
        while k < n
            invariant
                0 <= k <= n,
                keys@ == ranks(scores@, k as int),
            decreases n - k,
        {
            keys.push(Highest { key: score_of(scores, k) });
            assert(keys@ =~= ranks(scores@, k + 1));
            k = k + 1;
        }
        let order = sorted_order(&keys);
        let limit: usize = if max_results == 0 || n as u64 <= max_results as u64 {
            n
        } else {
            max_results as usize
        };
        let mut result: Vec<Quote> = Vec::new();
        let mut i: usize = 0;
        while i < limit
            invariant
                0 <= i <= limit <= n,
                n == quotes@.len(),
                order@.len() == n,
                forall|j: int| 0 <= j < order@.len() ==> (#[trigger] order@[j]) < n,
                result@.len() == i,
                picks(quotes@, order@, result@),
            decreases limit - i,
        {
            result.push(quotes[order[i]].clone());
            i = i + 1;
        }
        assert(picks(quotes@, order@, result@));
        Ok(result)
    }
}

/// Every eligible quote is the latest one of an eligible listed anchor.
proof fn eligible_are_latest(env: Ledger, anchors: Seq<Address>, min_reputation: u32, i: int)
    requires
        0 <= i < eligible(env, anchors, min_reputation).len(),
    ensures
        exists|k: int|
            {
                &&& 0 <= k < anchors.len()
                &&& is_eligible(env, #[trigger] anchors[k], min_reputation)
                &&& latest_quote(env, anchors[k]) == Some(eligible(env, anchors, min_reputation)[i])
            },
    decreases anchors.len(),
{
    let rest = eligible(env, anchors.drop_last(), min_reputation);
    if i < rest.len() {
        eligible_are_latest(env, anchors.drop_last(), min_reputation, i);
        let k = choose|k: int|
            {
                &&& 0 <= k < anchors.drop_last().len()
                &&& is_eligible(env, #[trigger] anchors.drop_last()[k], min_reputation)
                &&& latest_quote(env, anchors.drop_last()[k]) == Some(rest[i])
            };
        assert(anchors[k] == anchors.drop_last()[k]);
    } else {
        assert(anchors[anchors.len() - 1] == anchors.last());
    }
}

/// No quote that a transaction is routed to is of an anchor on the blacklist.
pub proof fn routes_avoid_the_blacklist(
    env: Ledger,
    options: RoutingOptions,
    scores: Seq<u64>,
    q: Quote,
)
    requires
        quotes_are_filed(env.quotes),
        is_route(env, options, scores, q),
    ensures
        !is_blacklisted(env, q.anchor),
{
    let anchors = env.routing.anchors@;
    let all = candidates(env, anchors, options.request, options.min_reputation);
    let i = choose|i: int|
        #[trigger] is_best(env, options.strategy@[0]@, all, scores, i) && q == all[i];
    candidates_are_eligible(env, anchors, options.request, options.min_reputation, i);
    let k = choose|k: int|
        {
            &&& 0 <= k < anchors.len()
            &&& is_candidate(env, #[trigger] anchors[k], options.request, options.min_reputation)
            &&& latest_quote(env, anchors[k]) == Some(all[i])
        };
    assert(env.quotes.records@.contains_key((anchors[k], env.quotes.latest@[anchors[k]])));
}

/// The quote of a preferred anchor is not of an anchor on the blacklist.
pub proof fn preferences_avoid_the_blacklist(env: Ledger, anchor: Address, options: RoutingOptions)
    requires
        quotes_are_filed(env.quotes),
        is_preferred(env, anchor, options),
    ensures
        latest_quote(env, anchor)->0.anchor == anchor,
        !is_blacklisted(env, latest_quote(env, anchor)->0.anchor),
{
    assert(env.quotes.records@.contains_key((anchor, env.quotes.latest@[anchor])));
}

/// No quote of a ranking is of an anchor on the blacklist.
pub proof fn rankings_avoid_the_blacklist(
    env: Ledger,
    min_reputation: u32,
    scores: Seq<u64>,
    limit: u32,
    r: Seq<Quote>,
    i: int,
)
    requires
        quotes_are_filed(env.quotes),
        is_ranked_selection(
            eligible(env, env.routing.anchors@, min_reputation),
            scores,
            limit,
            r,
        ),
        0 <= i < r.len(),
    ensures
        !is_blacklisted(env, r[i].anchor),
{
    let anchors = env.routing.anchors@;
    let quotes = eligible(env, anchors, min_reputation);
    let n = quotes.len() as int;
    let order = choose|order: Seq<usize>|
        {
            &&& is_sorted_order(ranks(scores, n), order)
            &&& lists_each(order, n)
            &&& r.len() == (if limit == 0 || n <= limit {
                n
            } else {
                limit as int
            })
            &&& #[trigger] picks(quotes, order, r)
        };
    assert(r[i] == quotes[order[i] as int]);
    eligible_are_latest(env, anchors, min_reputation, order[i] as int);
    let k = choose|k: int|
        {
            &&& 0 <= k < anchors.len()
            &&& is_eligible(env, #[trigger] anchors[k], min_reputation)
            &&& latest_quote(env, anchors[k]) == Some(quotes[order[i] as int])
        };
    assert(env.quotes.records@.contains_key((anchors[k], env.quotes.latest@[anchors[k]])));
}

} // verus!
