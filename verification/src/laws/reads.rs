//! Laws of what the contract answers.
use crate::address::Address;
use crate::cache_governance::config_in;
use crate::contract::anchors::{active_anchors, recent_versions, version_count};
use crate::contract::cache::{
    expiry_outcome, grace_read, quorum_outcome, read_capabilities_refusal, read_metadata_refusal,
};
use crate::contract::events::Event;
use crate::contract::health::{
    cache_diagnosed, context_for_policy, contract_diagnosed, limiter_diagnostics, limiter_health,
    proof_judged, readiness_of, status_in,
};
use crate::contract::kyc::{compliance_passed, history_len, kyc_status_in, recent_checks};
use crate::contract::ledger::{admin_refusal, ContractError, Ledger};
use crate::contract::limits::{global_limit, global_limit_outcome};
use crate::contract::policies::{composite_of, is_strategy_at, weights_in, weights_outcome};
use crate::contract::quotes::{expiry_noted, is_invalidated, lifecycle_of};
use crate::contract::routing::{is_preferred, is_route, routed, routed_with_fallback};
use crate::contract::services::{active_services, is_retired, offers_service};
use crate::contract::sessions::{last_entries, operations_of, session_refusal, state_now};
use crate::contract::tomls::{
    assets_of, deposit_fees_are, deposit_limits_are, deposits_are_taken, is_first_asset,
    provenance_of, takes_direct_payments, toml_refusal, withdrawal_fees_are,
    withdrawal_limits_are, withdrawals_are_paid,
};
use crate::contract::tracing::{
    append_refusal, operation_recorded, plain_quote_traced, reasoned_quote_traced, RequestIdView,
};
use crate::contract::transactions::{in_state_count, summary_of};
use crate::contract::types::{
    AnchorMetadata, AssetInfo, Bytes, HealthStatus, Quote, QuoteLifecycleState, RequestId,
    RoutingOptions,
};
use crate::errors::ErrorCode;
use crate::transaction_state_tracker::TransactionState;
use vstd::prelude::*;

verus! {

/// A routed transaction goes to a quote for the requested pair of assets that
/// covers the amount and has not run out. Routing changes nothing but what is
/// announced, which names the quote.
pub proof fn routes_go_to_fitting_quotes(
    before: Ledger,
    after: Ledger,
    options: &RoutingOptions,
    scores: &Vec<u64>,
    q: Quote,
)
    requires
        routed(before, after, options, scores, q),
    ensures
        q.base_asset@ == options.request.base_asset@,
        q.quote_asset@ == options.request.quote_asset@,
        q.minimum_amount <= options.request.amount,
        q.maximum_amount != 0 ==> options.request.amount <= q.maximum_amount,
        before.clock.timestamp < q.valid_until,
        after.quotes == before.quotes,
        after.routing == before.routing,
        after.events@.len() == before.events@.len() + 1,
        after.events@.last() is RouteSelected,
        after.events@.last()->RouteSelected_0.transaction_id == q.quote_id,
{
    crate::laws::routing::routed_quotes_meet_the_request(before, *options, scores@, q);
}

/// With a preferred anchor a transaction goes to a fitting quote too: to the latest
/// quote of the preferred anchor where that fits, and then it is announced as such;
/// else the fallback is announced first.
pub proof fn fallbacks_go_to_fitting_quotes(
    before: Ledger,
    after: Ledger,
    options: &RoutingOptions,
    preferred: Address,
    scores: &Vec<u64>,
    q: Quote,
)
    requires
        routed_with_fallback(before, after, options, preferred, scores, q),
    ensures
        q.base_asset@ == options.request.base_asset@,
        q.quote_asset@ == options.request.quote_asset@,
        q.minimum_amount <= options.request.amount,
        q.maximum_amount != 0 ==> options.request.amount <= q.maximum_amount,
        before.clock.timestamp < q.valid_until,
        after.quotes == before.quotes,
        is_preferred(before, preferred, *options) ==> {
            &&& q == before.quotes.records@[(preferred, before.quotes.latest@[preferred])]
            &&& after.events@ == before.events@.push(Event::QuoteRouted(q.quote_id))
        },
        !is_preferred(before, preferred, *options) ==> {
            &&& is_route(before, *options, scores@, q)
            &&& after.events@.len() == before.events@.len() + 2
            &&& after.events@[before.events@.len() as int] == Event::QuoteFallback
            &&& after.events@.last()->RouteSelected_0.transaction_id == q.quote_id
        },
{
    crate::laws::routing::preferred_quotes_meet_the_request(before, *options, preferred);
    if !is_preferred(before, preferred, *options) {
        crate::laws::routing::routed_quotes_meet_the_request(before, *options, scores@, q);
    }
}

/// The versions that are shown are the last fifty: all of them where there are no
/// more, and the newest is among them.
pub proof fn the_newest_versions_are_shown(env: Ledger, anchor: Address)
    requires
        forall|v: u32|
            1 <= v <= version_count(env, anchor) ==> #[trigger] env.routing.history@.contains_key(
                (anchor, v),
            ),
    ensures
        ({
            let n = version_count(env, anchor) as int;
            let r = recent_versions(env, anchor);
            &&& n <= 50 ==> r.len() == n
            &&& n > 50 ==> r.len() == 50
            &&& n > 0 ==> r.last() == env.routing.history@[(anchor, n as u32)]
        }),
{
    let n = version_count(env, anchor) as int;
    let start = if n > 50 {
        n - 49
    } else {
        1
    };
    stored_ranges_are_full(env, anchor, start, n);
}

proof fn stored_ranges_are_full(env: Ledger, anchor: Address, from: int, to: int)
    requires
        1 <= from,
        from - 1 <= to <= version_count(env, anchor),
        forall|v: u32|
            1 <= v <= version_count(env, anchor) ==> #[trigger] env.routing.history@.contains_key(
                (anchor, v),
            ),
    ensures
        ({
            let r = crate::contract::anchors::version_range(
                env.routing.history@,
                anchor,
                from,
                to,
            );
            &&& r.len() == to - from + 1
            &&& from <= to ==> r.last() == env.routing.history@[(anchor, to as u32)]
        }),
    decreases to - from + 1,
{
    if from <= to {
        stored_ranges_are_full(env, anchor, from, to - 1);
        assert(env.routing.history@.contains_key((anchor, to as u32)));
    }
}

/// The active anchors are those that are listed and marked as active.
pub proof fn active_anchors_are_listed(env: Ledger, a: Address)
    ensures
        active_anchors(env).contains(a) <==> env.routing.anchors@.contains(a)
            && env.routing.metadata@.contains_key(a) && env.routing.metadata@[a].is_active,
{
    kept_exactly(
        env.routing.anchors@,
        |a: Address| crate::contract::anchors::is_active_anchor(env, a),
        a,
    );
}

proof fn kept_exactly<A>(s: Seq<A>, keep: spec_fn(A) -> bool, x: A)
    ensures
        s.filter(keep).contains(x) <==> s.contains(x) && keep(x),
    decreases s.len(),
{
    reveal(Seq::filter);
    if s.len() > 0 {
        let rest = s.drop_last();
        let kept = rest.filter(keep);
        kept_exactly(rest, keep, x);
        let all = s.filter(keep);
        if all.contains(x) {
            let i = choose|i: int| 0 <= i < all.len() && all[i] == x;
            if i < kept.len() {
                assert(kept[i] == x);
                let k = choose|k: int| 0 <= k < rest.len() && rest[k] == x;
                assert(s[k] == x);
            } else {
                assert(s[s.len() - 1] == x);
            }
        }
        if s.contains(x) && keep(x) {
            let k = choose|k: int| 0 <= k < s.len() && s[k] == x;
            if k < rest.len() {
                assert(rest[k] == x);
                let i = choose|i: int| 0 <= i < kept.len() && kept[i] == x;
                assert(all[i] == x);
            } else {
                assert(all[kept.len() as int] == x);
            }
        }
    }
}

/// A plain read gives cached metadata, and cached capabilities, exactly before the
/// end of their lifetime; what is missing is told apart from what is over.
pub proof fn plain_reads_end_with_the_lifetime(env: Ledger, anchor: Address)
    ensures
        ({
            let r = read_metadata_refusal(env, anchor);
            let stored = env.cache.metadata@.contains_key(anchor);
            let e = env.cache.metadata@[anchor].value;
            let alive = env.clock.timestamp < e.cached_at + e.ttl_seconds;
            &&& r is None <==> stored && alive
            &&& !stored ==> r == Some(ContractError::Code(ErrorCode::CacheNotFound))
            &&& stored && !alive ==> r == Some(ContractError::Code(ErrorCode::CacheExpired))
        }),
        ({
            let r = read_capabilities_refusal(env, anchor);
            let stored = env.cache.capabilities@.contains_key(anchor);
            let e = env.cache.capabilities@[anchor].value;
            let alive = env.clock.timestamp < e.cached_at + e.ttl_seconds;
            &&& r is None <==> stored && alive
            &&& !stored ==> r == Some(ContractError::Code(ErrorCode::CacheNotFound))
            &&& stored && !alive ==> r == Some(ContractError::Code(ErrorCode::CacheExpired))
        }),
{
}

/// Through the grace period metadata is given as it is stored, with whether its
/// lifetime is over, and then it is marked for refresh; behind the grace period it
/// is refused.
pub proof fn grace_reads_tell_staleness(
    before: Ledger,
    after: Ledger,
    anchor: Address,
    out: Result<(AnchorMetadata, bool), ContractError>,
)
    requires
        grace_read(before, after, anchor, out),
    ensures
        ({
            let stored = before.cache.metadata@.contains_key(anchor);
            let e = before.cache.metadata@[anchor].value;
            let age = before.clock.timestamp - e.cached_at;
            &&& out is Ok <==> stored && age <= e.ttl_seconds + e.stale_ttl_seconds
            &&& out is Ok ==> out->Ok_0.0 == e.metadata && out->Ok_0.1 == (age > e.ttl_seconds)
            &&& out is Ok && out->Ok_0.1 ==> after.cache.metadata@[anchor].value.needs_refresh
                && after.cache.metadata@[anchor].value.metadata == e.metadata
                && after.cache.metadata@[anchor].value.cached_at == e.cached_at
            &&& out is Ok && !out->Ok_0.1 ==> after == before
            &&& out is Err ==> after == before
            &&& !stored ==> out->Err_0 == ContractError::Code(ErrorCode::CacheNotFound)
        }),
{
}

/// How proposals are decided is set by the admin, each number without the other,
/// and zero changes nothing.
pub proof fn governance_numbers_are_set(
    before: Ledger,
    after: Ledger,
    n: u32,
    out: Result<(), ContractError>,
)
    requires
        config_in(before).quorum_threshold > 0,
        config_in(before).proposal_expiry_ledgers > 0,
    ensures
        quorum_outcome(before, after, n, out) ==> {
            &&& out is Ok && n > 0 ==> config_in(after).quorum_threshold == n && config_in(
                after,
            ).proposal_expiry_ledgers == config_in(before).proposal_expiry_ledgers
            &&& out is Err || n == 0 ==> after == before
        },
        expiry_outcome(before, after, n, out) ==> {
            &&& out is Ok && n > 0 ==> config_in(after).proposal_expiry_ledgers == n && config_in(
                after,
            ).quorum_threshold == config_in(before).quorum_threshold
            &&& out is Err || n == 0 ==> after == before
        },
{
}

/// A policy decides by what is on record of the subject, and by nothing where
/// nothing is asked.
pub proof fn policies_decide_by_the_record(
    env: Ledger,
    subject: Address,
    kyc: bool,
    compliance: bool,
)
    ensures
        ({
            let r = context_for_policy(env, subject, kyc, compliance);
            &&& r is None <==> !kyc && !compliance
            &&& r is Some ==> {
                &&& r->0.kyc_state == kyc_status_in(env, subject)
                &&& r->0.compliance_check_passed == compliance_passed(env, subject)
                &&& r->0.require_kyc == kyc
                &&& r->0.require_compliance == compliance
                &&& env.config.compliance is Some ==> r->0.minimum_score
                    == env.config.compliance->0.minimum_score
            }
        }),
{
}

/// The contract is unavailable exactly before it is initialised, and healthy
/// exactly where it is and a limit was set.
pub proof fn statuses_follow_the_settings(env: Ledger)
    ensures
        status_in(env) == HealthStatus::Unavailable <==> !env.access.initialized,
        status_in(env) == HealthStatus::Healthy <==> env.access.initialized && env.rates.config
            is Some,
        status_in(env) == HealthStatus::Degraded <==> env.access.initialized && env.rates.config
            is None,
{
}

/// What is reported of a limit is what was counted in the current window against
/// what is allowed; an attestor of whom nothing was counted is not held back.
pub proof fn limiters_report_the_window(env: Ledger, a: Address)
    ensures
        ({
            let (h, d) = (limiter_health(env, a), limiter_diagnostics(env, a));
            let limit = global_limit(env);
            let known = env.rates.states@.contains_key(a);
            let s = env.rates.states@[a];
            let running = env.clock.sequence < u32::MAX && env.clock.sequence
                < s.window_start_ledger + limit.window_length;
            &&& h.attestor == a && d.attestor == a
            &&& h.max_submissions == limit.max_submissions
            &&& h.window_length == limit.window_length
            &&& d.max_submissions == limit.max_submissions
            &&& d.window_length == limit.window_length
            &&& h.submission_count == d.submission_count
            &&& known && running ==> h.submission_count == s.submission_count
            &&& known && !running ==> h.submission_count == 0 && !h.is_throttled
            &&& known && running ==> (h.is_throttled <==> s.submission_count
                >= limit.max_submissions)
            &&& d.is_at_limit <==> d.submission_count >= limit.max_submissions
            &&& !known ==> h.submission_count == 0
            &&& d.checked_at == env.clock.timestamp
        }),
{
}

/// An anchor is ready for a service exactly where it has configured it, and is
/// registered exactly where it is on the register.
pub proof fn readiness_reports_the_configuration(env: Ledger, a: Address)
    ensures
        ({
            let r = readiness_of(env, a);
            let known = env.services.configured@.contains_key(a);
            let codes = env.services.configured@[a].services@;
            &&& r.anchor == a
            &&& r.deposit_ready <==> known && codes.contains(1u32)
            &&& r.withdrawal_ready <==> known && codes.contains(2u32)
            &&& r.kyc_ready <==> known && codes.contains(4u32)
            &&& r.quote_ready ==> known && codes.contains(3u32)
            &&& r.is_registered <==> env.attestors.registered@.contains_key(a)
                && env.attestors.registered@[a]
            &&& r.checked_at == env.clock.timestamp
        }),
{
}

/// What is reported of the caches is what they hold: whether there is an entry, how
/// old it is and how long it lives.
pub proof fn cache_reports_read_the_entries(env: Ledger, a: Address)
    ensures
        ({
            let r = cache_diagnosed(env, a);
            let (m, c) = (env.cache.metadata@[a].value, env.cache.capabilities@[a].value);
            let now = env.clock.timestamp;
            &&& r.anchor == a
            &&& r.metadata_cached <==> env.cache.metadata@.contains_key(a)
            &&& r.capabilities_cached <==> env.cache.capabilities@.contains_key(a)
            &&& r.metadata_cached && m.cached_at <= now ==> r.metadata_age_seconds == now
                - m.cached_at
            &&& r.metadata_cached ==> r.metadata_ttl_seconds == m.ttl_seconds
            &&& r.capabilities_cached && c.cached_at <= now ==> r.capabilities_age_seconds == now
                - c.cached_at
            &&& r.capabilities_cached ==> r.capabilities_ttl_seconds == c.ttl_seconds
            &&& !r.metadata_cached ==> r.metadata_age_seconds == 0 && r.metadata_ttl_seconds == 0
            &&& !r.capabilities_cached ==> r.capabilities_age_seconds == 0
                && r.capabilities_ttl_seconds == 0
        }),
        ({
            let d = contract_diagnosed(env);
            &&& d.is_initialized == env.access.initialized
            &&& d.total_attestations == env.attestations.counter
            &&& d.total_quotes == env.quotes.count
            &&& d.total_sessions == env.sessions.count
            &&& d.rate_limit_max_submissions == global_limit(env).max_submissions
            &&& d.rate_limit_window_length == global_limit(env).window_length
        }),
{
}

/// A hash is the proof of an anchor exactly where it is the stored one; then, and
/// only then, the proof is marked as verified. A mismatch is announced.
pub proof fn proofs_are_verified_by_their_hash(
    before: Ledger,
    after: Ledger,
    anchor: Address,
    hash: [u8; 32],
    out: bool,
    other: Address,
)
    requires
        proof_judged(before, after, anchor, hash, out),
    ensures
        ({
            let stored = before.attestors.proofs@.contains_key(anchor);
            let (p, q) = (before.attestors.proofs@[anchor], after.attestors.proofs@[anchor]);
            let now = before.clock.timestamp;
            &&& out <==> stored && p.proof_hash == hash
            &&& out ==> q.verified && q.endpoint == p.endpoint && q.proof_hash == hash
                && q.registered_at == p.registered_at
            &&& !out ==> after.attestors == before.attestors
            &&& out ==> after.events@ == before.events@.push(Event::ProofVerified(anchor, now))
            &&& stored && !out ==> after.events@ == before.events@.push(
                Event::ProofFailed(anchor, now),
            )
            &&& !stored ==> after == before
        }),
        other != anchor ==> after.attestors.proofs@.contains_key(other)
            == before.attestors.proofs@.contains_key(other) && after.attestors.proofs@[other]
            == before.attestors.proofs@[other],
{
}

/// The limit for everyone is what was set, and the limits of roles and addresses
/// stay; a limit that lets nothing through is refused.
pub proof fn the_limit_for_everyone_is_set(
    before: Ledger,
    after: Ledger,
    caller: Address,
    max: u32,
    length: u32,
    out: Result<(), ContractError>,
)
    requires
        global_limit_outcome(before, after, caller, max, length, out),
    ensures
        out is Ok ==> {
            &&& global_limit(after).max_submissions == max
            &&& global_limit(after).window_length == length
            &&& max > 0
            &&& length > 0
            &&& after.rates.roles == before.rates.roles
            &&& after.rates.addresses == before.rates.addresses
            &&& after.rates.states == before.rates.states
            &&& after.admin_log@.len() == before.admin_log@.len() + 1
        },
        out is Err ==> after == before,
{
}

/// Weights are replaced by the admin where each is positive and they add up to a
/// thousand, and are those in force from then on.
pub proof fn weights_are_replaced(
    before: Ledger,
    after: Ledger,
    success: u32,
    uptime: u32,
    quality: u32,
    out: Result<(), ContractError>,
)
    requires
        weights_outcome(before, after, success, uptime, quality, out),
    ensures
        out is Ok <==> admin_refusal(before) is None && success > 0 && uptime > 0 && quality > 0
            && success + uptime + quality == 1000,
        out is Ok ==> {
            let w = weights_in(after);
            &&& w.success_rate_weight == success
            &&& w.uptime_weight == uptime
            &&& w.operator_quality_weight == quality
        },
        out is Err ==> after == before,
{
}

/// The strategy to go by is that of an enabled policy whose window holds the time
/// of day, which is the same a day later; there is none exactly where no policy
/// holds it.
pub proof fn strategies_go_by_the_time_of_day(env: Ledger, t: u64, out: Option<String>)
    requires
        is_strategy_at(env, t, out),
        t <= u64::MAX - 86_400,
    ensures
        is_strategy_at(env, (t + 86_400) as u64, out),
        ({
            let time = (t % 86_400) as u32;
            let count = env.routing.policy_count;
            &&& out is Some ==> exists|id: u64|
                {
                    let p = #[trigger] env.routing.policies@[id];
                    &&& 1 <= id <= count
                    &&& env.routing.policies@.contains_key(id)
                    &&& p.enabled
                    &&& p.window.contains(time)
                    &&& p.strategy_name == out->0
                }
            &&& out is None ==> forall|id: u64|
                1 <= id <= count && env.routing.policies@.contains_key(id)
                    && (#[trigger] env.routing.policies@[id]).enabled
                    ==> !env.routing.policies@[id].window.contains(time)
        }),
{
    let time = (t % 86_400) as u32;
    assert((t + 86_400) as u64 % 86_400 == t % 86_400);
    match out {
        Some(s) => {
            let id = choose|id: u64|
                #[trigger] crate::contract::policies::is_active_policy(
                    env,
                    id,
                    time,
                    env.routing.policy_count,
                ) && s == env.routing.policies@[id].strategy_name;
            assert(env.routing.policies@[id].enabled);
        },
        None => {
            assert forall|id: u64|
                1 <= id <= env.routing.policy_count && env.routing.policies@.contains_key(id) && (
                #[trigger] env.routing.policies@[id]).enabled implies !env.routing.policies@[
            id].window.contains(time) by {
                assert(!crate::contract::policies::in_force(env, id, time));
            }
        },
    }
}

/// An anchor without a reputation record counts for nothing, whatever the score.
pub proof fn unknown_reputations_count_for_nothing(env: Ledger, a: Address, score: u32)
    ensures
        !env.routing.reputations@.contains_key(a) ==> composite_of(env, a, score) == 0,
        env.routing.reputations@.contains_key(a) ==> composite_of(env, a, score) == score,
{
}

/// A quote is invalidated exactly where it was marked so, and active else. That it
/// has run out is announced exactly where it is stored and has.
pub proof fn lifecycles_are_reported(before: Ledger, after: Ledger, a: Address, id: u64)
    ensures
        lifecycle_of(before, a, id) == QuoteLifecycleState::Invalidated
            <==> before.quotes.lifecycle@.contains_key((a, id))
            && before.quotes.lifecycle@[(a, id)] == QuoteLifecycleState::Invalidated,
        lifecycle_of(before, a, id) == QuoteLifecycleState::Active || is_invalidated(before, a, id),
        expiry_noted(before, after, a, id) ==> {
            let stored = before.quotes.records@.contains_key((a, id));
            let q = before.quotes.records@[(a, id)];
            let over = before.clock.timestamp >= q.valid_until;
            &&& after.quotes == before.quotes
            &&& !stored || !over ==> after.events@ == before.events@
            &&& stored && over ==> after.events@.len() == before.events@.len() + 1
                && after.events@.last() is QuoteExpired
                && after.events@.last()->QuoteExpired_0.quote_id == id
                && after.events@.last()->QuoteExpired_0.anchor == a
                && after.events@.last()->QuoteExpired_0.valid_until == q.valid_until
        },
{
}

/// A service is offered exactly where it is configured and not retired, and the
/// active services are those.
pub proof fn offered_services_are_active(env: Ledger, a: Address, code: u32)
    ensures
        ({
            let c = env.services.configured@[a];
            let known = env.services.configured@.contains_key(a);
            &&& offers_service(env, a, code) <==> known && c.services@.contains(code)
                && !is_retired(c.service_retirements@, code)
            &&& known ==> (active_services(env, a).contains(code) <==> offers_service(
                env,
                a,
                code,
            ))
        }),
{
    let c = env.services.configured@[a];
    kept_exactly(c.services@, |c2: u32| !is_retired(c.service_retirements@, c2), code);
    kept_exactly(
        env.services.configured@[a].services@,
        |c: u32| !is_retired(env.services.configured@[a].service_retirements@, c),
        code,
    );
    let record = env.services.configured@[a];
    kept_exactly(record.services@, |c: u32| !is_retired(record.service_retirements@, c), code);
}

/// A session with a lifetime of its own shows as expired exactly from the end of it
/// on, and as what is stored before.
pub proof fn sessions_show_their_state(env: Ledger, id: u64)
    requires
        env.sessions.records@.contains_key(id),
        env.sessions.records@[id].session_ttl_seconds > 0,
        env.sessions.records@[id].created_at + env.sessions.records@[id].session_ttl_seconds
            <= u64::MAX,
    ensures
        session_refusal(env, id) is None,
        ({
            let s = env.sessions.records@[id];
            let over = env.clock.timestamp > s.created_at + s.session_ttl_seconds;
            &&& over ==> state_now(env, id) == 4
            &&& !over ==> state_now(env, id) == s.state
        }),
{
}

/// Unknown sessions are told so.
pub proof fn unknown_sessions_are_refused(env: Ledger, id: u64)
    ensures
        session_refusal(env, id) is None <==> env.sessions.records@.contains_key(id),
        session_refusal(env, id) is Some ==> session_refusal(env, id) == Some(
            ContractError::Code(ErrorCode::SessionNotFound),
        ),
{
}

/// The last entries of a session are no more than asked for, and more are asked for
/// in vain where there are no more.
pub proof fn last_entries_are_bounded(env: Ledger, id: u64, limit: u64)
    ensures
        last_entries(env, id, limit).len() <= limit,
        last_entries(env, id, limit).len() <= operations_of(env, id),
        limit >= operations_of(env, id) ==> last_entries(env, id, limit) == last_entries(
            env,
            id,
            operations_of(env, id),
        ),
{
    let total = operations_of(env, id);
    let start = if total > limit {
        total - limit
    } else {
        0
    };
    ranges_are_bounded(env, id, start, total as int);
}

proof fn ranges_are_bounded(env: Ledger, id: u64, from: int, to: int)
    requires
        0 <= from <= to,
    ensures
        crate::contract::sessions::session_log_range(env.sessions, id, from, to).len() <= to - from,
    decreases to - from,
{
    if from < to {
        ranges_are_bounded(env, id, from, to - 1);
    }
}

/// The checks that are shown are no more than asked for and no more than fifty.
pub proof fn shown_checks_are_bounded(env: Ledger, subject: Address, kind: String, limit: u64)
    ensures
        recent_checks(env, subject, kind, limit).len() <= limit,
        recent_checks(env, subject, kind, limit).len() <= 50,
        limit >= 50 ==> recent_checks(env, subject, kind, limit) == recent_checks(
            env,
            subject,
            kind,
            50,
        ),
        ({
            let n = history_len(env, subject, kind@);
            0 < n && 0 < limit && env.kyc.history@.contains_key((subject, kind@, (n - 1) as u64))
                ==> recent_checks(env, subject, kind, limit).len() > 0 && recent_checks(
                env,
                subject,
                kind,
                limit,
            ).last() == env.kyc.history@[(subject, kind@, (n - 1) as u64)]
        }),
{
    let total = history_len(env, subject, kind@) as int;
    let wanted = if limit < 50 {
        limit as int
    } else {
        50
    };
    let start = if total > wanted {
        total - wanted
    } else {
        0
    };
    checks_are_bounded(env, subject, kind@, start, total);
}

proof fn checks_are_bounded(env: Ledger, subject: Address, kind: Seq<char>, from: int, to: int)
    requires
        0 <= from <= to,
    ensures
        crate::contract::kyc::history_range(env.kyc.history@, subject, kind, from, to).len() <= to
            - from,
    decreases to - from,
{
    if from < to {
        checks_are_bounded(env, subject, kind, from, to - 1);
    }
}

/// The provenance of what an anchor publishes is what was stored with it, and its
/// age; direct payments are taken exactly where a server is named in what can be
/// read.
pub proof fn provenance_reads_the_entry(env: Ledger, a: Address)
    ensures
        ({
            let p = provenance_of(env, a);
            let e = env.cache.tomls@[a].value;
            &&& p.anchor == a
            &&& p.source_uri == e.source_uri
            &&& p.cached_at == e.cached_at
            &&& p.last_refreshed_at == e.last_refreshed_at
            &&& p.ttl_seconds == e.ttl_seconds
            &&& e.cached_at <= env.clock.timestamp ==> p.age_seconds == env.clock.timestamp
                - e.cached_at
        }),
        takes_direct_payments(env, a) <==> toml_refusal(env, a) is None
            && env.cache.tomls@[a].value.toml.direct_payment_server@.len() > 0,
{
}

/// What is told of an asset is what the first published asset with its code says:
/// of deposits what it says of deposits, of withdrawals what it says of
/// withdrawals.
pub proof fn asset_terms_are_the_published_ones(
    env: Ledger,
    a: Address,
    code: String,
    i: int,
    limits: (u64, u64),
    fees: (u64, u32),
    flag: bool,
)
    requires
        is_first_asset(assets_of(env, a), code@, i),
    ensures
        ({
            let x = env.cache.tomls@[a].value.toml.currencies@[i];
            &&& deposit_limits_are(env, a, code, limits) <==> limits.0 == x.deposit_min_amount
                && limits.1 == x.deposit_max_amount
            &&& withdrawal_limits_are(env, a, code, limits) <==> limits.0
                == x.withdrawal_min_amount && limits.1 == x.withdrawal_max_amount
            &&& deposit_fees_are(env, a, code, fees) <==> fees.0 == x.deposit_fee_fixed && fees.1
                == x.deposit_fee_percent
            &&& withdrawal_fees_are(env, a, code, fees) <==> fees.0 == x.withdrawal_fee_fixed
                && fees.1 == x.withdrawal_fee_percent
            &&& deposits_are_taken(env, a, code, flag) <==> flag == x.deposit_enabled
            &&& withdrawals_are_paid(env, a, code, flag) <==> flag == x.withdrawal_enabled
        }),
{
    let x = assets_of(env, a)[i];
    assert(crate::contract::tomls::finds_asset(env, a, code@, x));
    assert forall|y: AssetInfo| #[trigger]
        crate::contract::tomls::finds_asset(env, a, code@, y) implies y == x by {
        crate::laws::tomls::codes_find_one_asset(env, a, code@, x, y);
    }
}

/// A traced quote is stored with the assets, the amount, the fee, the range and the
/// end that were given, under the next number.
pub proof fn traced_quotes_keep_their_terms(
    before: Ledger,
    after: Ledger,
    request: &RequestId,
    anchor: Address,
    from: String,
    to: String,
    amount: u64,
    fee: u32,
    min: u64,
    max: u64,
    until: u64,
    reason: Option<String>,
)
    requires
        before.quotes.count < u64::MAX,
        reasoned_quote_traced(
            before,
            after,
            request,
            anchor,
            from,
            to,
            amount,
            fee,
            min,
            max,
            until,
            reason,
        ) || (reason is None && plain_quote_traced(
            before,
            after,
            request,
            anchor,
            from,
            to,
            amount,
            fee,
            min,
            max,
            until,
        )),
    ensures
        ({
            let id = (before.quotes.count + 1) as u64;
            let q = after.quotes.records@[(anchor, id)];
            &&& after.quotes.records@.contains_key((anchor, id))
            &&& q.quote_id == id
            &&& q.anchor == anchor
            &&& q.base_asset == from
            &&& q.quote_asset == to
            &&& q.rate == amount
            &&& q.fee_percentage == fee
            &&& q.minimum_amount == min
            &&& q.maximum_amount == max
            &&& q.valid_until == until
            &&& q.routing_reason == reason
            &&& after.tracing.spans@.contains_key(request.id@)
            &&& after.tracing.spans@[request.id@].actor == anchor
        }),
{
    let view: RequestIdView = request@;
    assert(view.id == request.id@);
}

/// An operation is appended exactly where it has a name.
pub proof fn operations_have_names(
    before: Ledger,
    after: Ledger,
    root: &Bytes,
    name: String,
)
    ensures
        append_refusal(before, name) is None <==> name@.len() > 0,
        append_refusal(before, name) is Some ==> append_refusal(before, name) == Some(
            ContractError::Code(ErrorCode::ValidationError),
        ),
        operation_recorded(before, after, root, name) ==> {
            &&& after.tracing.requests@.contains_key(root@)
            &&& after.tracing.requests@[root@]@.operations.last() == name@
            &&& after.tracing.spans == before.tracing.spans
        },
{
}

/// A summary counts each listed transaction that is stored once, under its state.
pub proof fn summaries_count_each_once(env: Ledger)
    requires
        env.transactions.ids@.len() <= u64::MAX,
    ensures
        ({
            let s = summary_of(env);
            let ids = env.transactions.ids@;
            &&& s.total_count == s.pending_count + s.in_progress_count + s.completed_count
                + s.failed_count
            &&& s.total_count <= ids.len()
            &&& s.pending_count == in_state_count(env, ids, TransactionState::Pending)
            &&& s.in_progress_count == in_state_count(env, ids, TransactionState::InProgress)
            &&& s.completed_count == in_state_count(env, ids, TransactionState::Completed)
            &&& s.failed_count == in_state_count(env, ids, TransactionState::Failed)
            &&& (forall|i: int|
                0 <= i < ids.len() ==> env.transactions.records@.contains_key(#[trigger] ids[i]))
                ==> s.total_count == ids.len()
        }),
{
    states_add_up(env, env.transactions.ids@);
}

proof fn states_add_up(env: Ledger, ids: Seq<u64>)
    ensures
        ({
            let a = in_state_count(env, ids, TransactionState::Pending);
            let b = in_state_count(env, ids, TransactionState::InProgress);
            let c = in_state_count(env, ids, TransactionState::Completed);
            let d = in_state_count(env, ids, TransactionState::Failed);
            &&& a >= 0 && b >= 0 && c >= 0 && d >= 0
            &&& a + b + c + d <= ids.len()
            &&& (forall|i: int|
                0 <= i < ids.len() ==> env.transactions.records@.contains_key(#[trigger] ids[i]))
                ==> a + b + c + d == ids.len()
        }),
    decreases ids.len(),
{
    if ids.len() > 0 {
        let rest = ids.drop_last();
        states_add_up(env, rest);
        if forall|i: int|
            0 <= i < ids.len() ==> env.transactions.records@.contains_key(#[trigger] ids[i]) {
            assert forall|i: int| 0 <= i < rest.len() implies env.transactions.records@.contains_key(
                #[trigger] rest[i],
            ) by {
                assert(ids[i] == rest[i]);
            }
            assert(env.transactions.records@.contains_key(ids[ids.len() - 1]));
        }
    }
}

} // verus!
