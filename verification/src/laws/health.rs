//! Laws of health, freshness and readiness.
use crate::address::Address;
use crate::contract::health::{
    can_score, composite_bps, counted_health, denial_code, falling_bps, freshness, freshness_in,
    has_room, has_service, health_of, health_score, latency_bps, quotes_now, recovery_bps,
    routing_bps, scores_are_bounded, share_bps, success_bps, windows_of, with_window, DenialReason,
};
use crate::contract::ledger::Ledger;
use crate::contract::types::{
    AnchorHealthMetrics, AnchorHealthWindow, HealthTrendDirection, MetadataCacheState,
};
use crate::errors::ErrorCode;
use vstd::prelude::*;

verus! {

/// With two windows or more, an anchor is improving exactly where its score is
/// more than 150 above the one before, degrading exactly where it is more than
/// 150 below, and stable otherwise. With fewer it is stable.
pub proof fn trends_follow_the_scores(env: Ledger, anchor: Address)
    requires
        ({
            let windows = windows_of(env, anchor);
            let n = windows.len() as int;
            &&& n >= 1 ==> can_score(windows[n - 1])
            &&& n >= 2 ==> can_score(windows[n - 2])
        }),
    ensures
        ({
            let r = health_score(env, anchor);
            let n = env.health.windows@[anchor]@.len();
            let many = env.health.windows@.contains_key(anchor) && n >= 2;
            &&& many ==> {
                &&& r.trend == HealthTrendDirection::Improving <==> r.composite_bps
                    > r.previous_composite_bps + 150
                &&& r.trend == HealthTrendDirection::Degrading <==> r.previous_composite_bps
                    > r.composite_bps + 150
                &&& r.trend == HealthTrendDirection::Stable <==> r.composite_bps
                    <= r.previous_composite_bps + 150 && r.previous_composite_bps <= r.composite_bps
                    + 150
            }
            &&& !many ==> r.trend == HealthTrendDirection::Stable && r.previous_composite_bps == 0
        }),
{
    let windows = windows_of(env, anchor);
    let n = windows.len() as int;
    if n >= 1 {
        scores_are_bounded(windows[n - 1]);
    }
    if n >= 2 {
        scores_are_bounded(windows[n - 2]);
    }
}

/// The score of an anchor is that of the window recorded last, the previous one
/// that of the window before it; an anchor without windows scores nothing.
pub proof fn scores_are_of_the_latest_windows(env: Ledger, anchor: Address)
    requires
        ({
            let windows = windows_of(env, anchor);
            let n = windows.len() as int;
            &&& n <= u32::MAX
            &&& n >= 1 ==> can_score(windows[n - 1])
            &&& n >= 2 ==> can_score(windows[n - 2])
        }),
    ensures
        ({
            let r = health_score(env, anchor);
            let windows = env.health.windows@[anchor]@;
            let n = if env.health.windows@.contains_key(anchor) {
                windows.len() as int
            } else {
                0
            };
            &&& r.anchor == anchor
            &&& r.scored_at == env.clock.timestamp
            &&& r.window_count == n
            &&& n == 0 ==> r.composite_bps == 0 && r.success_rate_bps == 0 && r.latency_bps == 0
                && r.routing_bps == 0 && r.recovery_bps == 0
            &&& n >= 1 ==> {
                &&& r.composite_bps == composite_bps(windows[n - 1])
                &&& r.success_rate_bps == success_bps(windows[n - 1])
                &&& r.latency_bps == latency_bps(windows[n - 1])
                &&& r.routing_bps == routing_bps(windows[n - 1])
                &&& r.recovery_bps == recovery_bps(windows[n - 1])
            }
            &&& n >= 2 ==> r.previous_composite_bps == composite_bps(windows[n - 2])
        }),
{
    let windows = windows_of(env, anchor);
    let n = windows.len() as int;
    if n >= 1 {
        scores_are_bounded(windows[n - 1]);
    }
    if n >= 2 {
        scores_are_bounded(windows[n - 2]);
    }
}

/// Of a score, successes make forty parts in a hundred, latency twenty-five,
/// routing twenty and recovery fifteen, rounded down.
pub proof fn parts_are_weighed(env: Ledger, anchor: Address)
    requires
        windows_of(env, anchor).len() > 0,
        can_score(windows_of(env, anchor).last()),
        windows_of(env, anchor).len() >= 2 ==> can_score(
            windows_of(env, anchor)[windows_of(env, anchor).len() - 2],
        ),
    ensures
        ({
            let r = health_score(env, anchor);
            let sum = r.success_rate_bps * 40 + r.latency_bps * 25 + r.routing_bps * 20
                + r.recovery_bps * 15;
            100 * r.composite_bps <= sum < 100 * r.composite_bps + 100
        }),
{
    scores_are_bounded(windows_of(env, anchor).last());
}

/// The part for successes is their share of all calls, in hundredths of a
/// percent and rounded down; none without calls. More successes, or fewer
/// failures, never make it less.
pub proof fn successes_are_a_share(w: AnchorHealthWindow)
    requires
        can_score(w),
        w.success_count * 10_000 <= u64::MAX,
    ensures
        w.success_count + w.failure_count == 0 ==> success_bps(w) == 0,
        w.success_count + w.failure_count > 0 ==> success_bps(w) * (w.success_count
            + w.failure_count) <= w.success_count * 10_000 < (success_bps(w) + 1) * (w.success_count
            + w.failure_count),
        w.failure_count == 0 && w.success_count > 0 ==> success_bps(w) == 10_000,
        w.success_count == 0 ==> success_bps(w) == 0,
{
    let total = w.success_count + w.failure_count;
    if total > 0 {
        let product = w.success_count * 10_000;
        let share = product / total;
        vstd::arithmetic::div_mod::lemma_fundamental_div_mod(product, total);
        vstd::arithmetic::div_mod::lemma_mod_bound(product, total);
        assert(success_bps(w) == share);
        assert(share * total <= product < (share + 1) * total) by (nonlinear_arith)
            requires
                product == total * share + product % total,
                0 <= product % total < total,
        ;
        if w.failure_count == 0 {
            assert((w.success_count * 10_000) / (w.success_count as int) == 10_000)
                by (nonlinear_arith)
                requires
                    w.success_count > 0,
            ;
        }
    }
}

/// The part for latency is half of the whole without data, the whole up to half a
/// second, nothing from ten seconds on, and less the longer it is in between.
pub proof fn latency_counts_down(w: AnchorHealthWindow, slower: AnchorHealthWindow)
    ensures
        w.p50_latency_ms_x10 == 0 ==> latency_bps(w) == 5_000,
        0 < w.p50_latency_ms_x10 <= 5_000 ==> latency_bps(w) == 10_000,
        w.p50_latency_ms_x10 >= 100_000 ==> latency_bps(w) == 0,
        0 < w.p50_latency_ms_x10 <= slower.p50_latency_ms_x10 ==> latency_bps(w) >= latency_bps(
            slower,
        ),
        5_000 < w.p50_latency_ms_x10 < 100_000 ==> {
            let lost = 10_000 - latency_bps(w);
            lost * 95_000 <= (w.p50_latency_ms_x10 - 5_000) * 10_000 < (lost + 1) * 95_000
        },
{
    if 0 < w.p50_latency_ms_x10 <= slower.p50_latency_ms_x10 {
        falls(w.p50_latency_ms_x10, slower.p50_latency_ms_x10, 5_000, 100_000);
    }
}

/// The part for recovery is the whole up to a minute, nothing from an hour on, and
/// less the longer it takes in between.
pub proof fn recovery_counts_down(w: AnchorHealthWindow, slower: AnchorHealthWindow)
    ensures
        w.recovery_time_seconds <= 60 ==> recovery_bps(w) == 10_000,
        w.recovery_time_seconds >= 3_600 ==> recovery_bps(w) == 0,
        w.recovery_time_seconds <= slower.recovery_time_seconds ==> recovery_bps(w)
            >= recovery_bps(slower),
        60 < w.recovery_time_seconds < 3_600 ==> {
            let lost = 10_000 - recovery_bps(w);
            lost * 3_540 <= (w.recovery_time_seconds - 60) * 10_000 < (lost + 1) * 3_540
        },
{
    if w.recovery_time_seconds <= slower.recovery_time_seconds {
        falls(w.recovery_time_seconds, slower.recovery_time_seconds, 60, 3_600);
    }
}

proof fn falls(value: u64, larger: u64, best: u64, worst: u64)
    requires
        best < worst,
        value <= larger,
    ensures
        falling_bps(value, best, worst) >= falling_bps(larger, best, worst),
{
    if best < value && larger < worst {
        let span = worst - best;
        let a = (value - best) * 10_000;
        let b = (larger - best) * 10_000;
        vstd::arithmetic::div_mod::lemma_div_is_ordered(a, b, span);
    }
    crate::contract::health::scores_are_bounded(
        AnchorHealthWindow {
            started_at: 0,
            ended_at: 0,
            success_count: 0,
            failure_count: 0,
            p50_latency_ms_x10: 0,
            routing_attempt_count: 0,
            routing_failure_count: 0,
            recovery_time_seconds: 0,
        },
    );
    if best < value < worst {
        let span = worst - best;
        let a = (value - best) * 10_000;
        assert(0 <= a / span <= 10_000) by (nonlinear_arith)
            requires
                0 <= a <= span * 10_000,
                span > 0,
        ;
    }
    if best < larger < worst {
        let span = worst - best;
        let b = (larger - best) * 10_000;
        assert(0 <= b / span <= 10_000) by (nonlinear_arith)
            requires
                0 <= b <= span * 10_000,
                span > 0,
        ;
    }
}

/// The part for routing is the whole without attempts or without failures,
/// nothing where every attempt failed, and otherwise the share of the attempts
/// that did not fail.
pub proof fn routing_is_a_share(w: AnchorHealthWindow)
    requires
        w.routing_attempt_count * 10_000 <= u64::MAX,
    ensures
        w.routing_attempt_count == 0 ==> routing_bps(w) == 10_000,
        w.routing_attempt_count > 0 && w.routing_failure_count == 0 ==> routing_bps(w) == 10_000,
        w.routing_attempt_count > 0 && w.routing_failure_count >= w.routing_attempt_count
            ==> routing_bps(w) == 0,
        0 < w.routing_attempt_count && w.routing_failure_count <= w.routing_attempt_count
            ==> routing_bps(w) * w.routing_attempt_count <= (w.routing_attempt_count
            - w.routing_failure_count) * 10_000 < (routing_bps(w) + 1) * w.routing_attempt_count,
{
    let total = w.routing_attempt_count as int;
    if total > 0 && w.routing_failure_count <= total {
        let good = total - w.routing_failure_count;
        let product = good * 10_000;
        assert(good * 10_000 <= u64::MAX);
        let share = product / total;
        vstd::arithmetic::div_mod::lemma_fundamental_div_mod(product, total);
        vstd::arithmetic::div_mod::lemma_mod_bound(product, total);
        assert(routing_bps(w) == share);
        assert(share * total <= product < (share + 1) * total) by (nonlinear_arith)
            requires
                product == total * share + product % total,
                0 <= product % total < total,
        ;
        if w.routing_failure_count == 0 {
            assert((total * 10_000) / total == 10_000) by (nonlinear_arith)
                requires
                    total > 0,
            ;
        }
    }
}

/// Counting adds successes to successes and failures to failures, dates the
/// counters, and the share of successes among all calls is kept with them.
pub proof fn counters_add_up(m: AnchorHealthMetrics, successes: u64, failures: u64, now: u64)
    requires
        has_room(m, successes, failures),
        (m.success_count + successes) * 10_000 <= u64::MAX,
    ensures
        ({
            let c = counted_health(m, successes, failures, now);
            &&& c.anchor == m.anchor
            &&& c.success_count == m.success_count + successes
            &&& c.failure_count == m.failure_count + failures
            &&& c.total_calls == c.success_count + c.failure_count
            &&& c.last_event_at == now
            &&& c.total_calls == 0 ==> c.uptime_bps == 0
            &&& c.total_calls > 0 ==> c.uptime_bps * c.total_calls <= c.success_count * 10_000 < (
            c.uptime_bps + 1) * c.total_calls
        }),
{
    let c = counted_health(m, successes, failures, now);
    let total = c.total_calls as int;
    if total > 0 {
        let product = c.success_count * 10_000;
        let share = product / total;
        vstd::arithmetic::div_mod::lemma_fundamental_div_mod(product, total);
        vstd::arithmetic::div_mod::lemma_mod_bound(product, total);
        assert(share * total <= product < (share + 1) * total) by (nonlinear_arith)
            requires
                product == total * share + product % total,
                0 <= product % total < total,
        ;
        assert(0 <= share <= 10_000) by (nonlinear_arith)
            requires
                share * total <= product < (share + 1) * total,
                0 <= product <= total * 10_000,
                total > 0,
        ;
        assert(share_bps(c.success_count, c.total_calls) == share);
    }
}

/// An anchor of which nothing was counted has all counters at zero.
pub proof fn counters_start_at_zero(env: Ledger, anchor: Address)
    ensures
        env.health.metrics@.contains_key(anchor) ==> health_of(env, anchor)
            == env.health.metrics@[anchor],
        !env.health.metrics@.contains_key(anchor) ==> {
            let m = health_of(env, anchor);
            &&& m.anchor == anchor
            &&& m.success_count == 0
            &&& m.failure_count == 0
            &&& m.total_calls == 0
            &&& m.uptime_bps == 0
        },
{
}

/// A new window comes last; the earlier ones stay in their order, without the
/// first where there were twenty-four.
pub proof fn windows_move_on(windows: Seq<AnchorHealthWindow>, w: AnchorHealthWindow)
    ensures
        with_window(windows, w).last() == w,
        windows.len() < 24 ==> with_window(windows, w).len() == windows.len() + 1 && forall|i: int|
            0 <= i < windows.len() ==> #[trigger] with_window(windows, w)[i] == windows[i],
        windows.len() >= 24 ==> with_window(windows, w).len() == windows.len() && forall|i: int|
            0 <= i < windows.len() - 1 ==> #[trigger] with_window(windows, w)[i] == windows[i + 1],
{
}

/// What is not cached or has expired is not fresh at all. What is cached is, the
/// younger the fresher: wholly at once, in its lifetime by the share of it that is
/// left, and only half as fresh in the grace period. A mark for refresh takes
/// away ten.
pub proof fn freshness_falls_with_age(age: u64, older: u64, ttl: u64, marked: bool)
    requires
        ttl > 0,
        age <= older,
    ensures
        freshness(age, ttl, MetadataCacheState::Missing, marked) == 0,
        freshness(age, ttl, MetadataCacheState::Expired, marked) == 0,
        freshness(0, ttl, MetadataCacheState::Fresh, false) == 100,
        freshness(0, ttl, MetadataCacheState::Fresh, true) == 90,
        freshness(age, 0, MetadataCacheState::Fresh, false) == 100,
        age >= ttl ==> freshness(age, ttl, MetadataCacheState::Fresh, marked) == 0,
        freshness(older, ttl, MetadataCacheState::Fresh, marked) <= freshness(
            age,
            ttl,
            MetadataCacheState::Fresh,
            marked,
        ),
        freshness(age, ttl, MetadataCacheState::Stale, false) == freshness(
            age,
            ttl,
            MetadataCacheState::Fresh,
            false,
        ) / 2,
        age < ttl ==> {
            let score = freshness(age, ttl, MetadataCacheState::Fresh, false);
            score * ttl <= (ttl - age) * 100 < (score + 1) * ttl
        },
        ({
            let plain = freshness(age, ttl, MetadataCacheState::Fresh, false);
            freshness(age, ttl, MetadataCacheState::Fresh, true) == if plain < 10 {
                0
            } else {
                plain - 10
            }
        }),
{
    let t = ttl as int;
    assert((t * 100) / t == 100) by (nonlinear_arith)
        requires
            t > 0,
    ;
    if age < ttl {
        let product = (ttl - age) * 100;
        let share = product / t;
        vstd::arithmetic::div_mod::lemma_fundamental_div_mod(product, t);
        vstd::arithmetic::div_mod::lemma_mod_bound(product, t);
        assert(share * t <= product < (share + 1) * t) by (nonlinear_arith)
            requires
                product == t * share + product % t,
                0 <= product % t < t,
        ;
        assert(share >= 0) by (nonlinear_arith)
            requires
                share * t <= product < (share + 1) * t,
                product >= 0,
                t > 0,
        ;
        if older < ttl {
            vstd::arithmetic::div_mod::lemma_div_is_ordered((ttl - older) * 100, product, t);
        }
    }
    if older < ttl {
        let product = (ttl - older) * 100;
        assert(product / t >= 0) by (nonlinear_arith)
            requires
                product >= 0,
                t > 0,
        ;
    }
}

/// A report on an anchor says what is cached of it: nothing, or how old it is, how
/// far in its life, and that it wants a refresh where it was marked or is no
/// longer fresh.
pub proof fn reports_read_the_cache(env: Ledger, anchor: Address)
    ensures
        ({
            let r = freshness_in(env, anchor);
            let cached = env.cache.metadata@.contains_key(anchor);
            let entry = env.cache.metadata@[anchor].value;
            let now = env.clock.timestamp;
            &&& r.anchor == anchor
            &&& !cached ==> r.state == MetadataCacheState::Missing && r.age_seconds == 0
                && !r.needs_refresh && r.freshness_score == 0
            &&& cached && entry.cached_at <= now ==> {
                let age = now - entry.cached_at;
                &&& r.age_seconds == age
                &&& r.state == MetadataCacheState::Fresh <==> age <= entry.ttl_seconds
                &&& r.state == MetadataCacheState::Stale <==> entry.ttl_seconds < age
                    <= entry.ttl_seconds + entry.stale_ttl_seconds
                &&& r.state == MetadataCacheState::Expired <==> age > entry.ttl_seconds
                    + entry.stale_ttl_seconds
                &&& r.needs_refresh <==> entry.needs_refresh || age > entry.ttl_seconds
            }
        }),
{
}

/// A service is ready where its anchor has configured it; quotes are ready where
/// the anchor has configured them and its latest one is stored and has not run
/// out.
pub proof fn readiness_reads_the_services(env: Ledger, anchor: Address, code: u32)
    ensures
        has_service(env, anchor, code) <==> env.services.configured@.contains_key(anchor)
            && env.services.configured@[anchor].services@.contains(code),
        quotes_now(env, anchor) <==> {
            &&& env.services.configured@.contains_key(anchor)
            &&& env.services.configured@[anchor].services@.contains(3u32)
            &&& env.quotes.latest@.contains_key(anchor)
            &&& env.quotes.records@.contains_key((anchor, env.quotes.latest@[anchor]))
            &&& env.clock.timestamp < env.quotes.records@[(
                anchor,
                env.quotes.latest@[anchor],
            )].valid_until
        },
{
}

/// A denial is reported by the error of its reason; what is short of the policy
/// without an error of its own is reported as not compliant.
pub proof fn denials_have_their_errors(reason: DenialReason)
    ensures
        reason == DenialReason::KycPending ==> denial_code(reason) == ErrorCode::KycPending,
        reason == DenialReason::KycRejected ==> denial_code(reason) == ErrorCode::KycRejected,
        reason == DenialReason::KycNotSubmitted ==> denial_code(reason) == ErrorCode::KycNotFound,
        reason == DenialReason::KycExpired ==> denial_code(reason) == ErrorCode::ComplianceNotMet,
        reason == DenialReason::ComplianceCheckFailed ==> denial_code(reason)
            == ErrorCode::ComplianceNotMet,
        reason == DenialReason::ScoreBelowMinimum ==> denial_code(reason)
            == ErrorCode::ComplianceNotMet,
{
}

} // verus!
