//! Health of the contract and of anchors, and diagnostics.
use crate::address::Address;
use crate::arith::{capped_product, floored_difference, mul_capped};
use crate::contract::attestors::{profile_of, profile_refusal};
use crate::contract::cache::{age_of, swr_state, swr_state_of};
use crate::contract::events::Event;
use crate::contract::kyc::{compliance_passed, kyc_status_in};
use crate::contract::ledger::{
    admin_refusal, attestor_refusal, auth_refusal, either, follows, refuse_when, AnchorKitContract,
    AttestorState, ContractError, HealthState, Ledger,
};
use crate::contract::limits::{global_limit, rate_state};
use crate::contract::routing::{latest_quote, offers_quotes};
use crate::contract::settings::compliance_policy_in;
use crate::contract::types::{
    AnchorHealthMetrics, AnchorHealthScore, AnchorHealthWindow, AnchorProofRecord,
    AnchorReadinessReport, CacheDiagnostics, ContractDiagnostics, HealthStatus,
    HealthTrendDirection, KycStatus, MetadataCacheState, MetadataFreshnessReport,
    RateLimiterDiagnostics, RateLimiterHealth, SepFeatureFlags, SessionDiagnostics,
    MAX_HEALTH_WINDOWS, SEP_10, SEP_24, SEP_31, SEP_38, SEP_6, SERVICE_DEPOSITS, SERVICE_KYC,
    SERVICE_QUOTES, SERVICE_WITHDRAWALS,
};
use crate::errors::ErrorCode;
use crate::rate_limiter::{is_window_expired, window_over, RateLimitState};
use crate::service_management::lists_code;
use crate::text::same_text;
use vstd::prelude::*;
use vstd::string::*;

verus! {

/// By how much a score must change for a trend, in hundredths of a percent.
pub const TREND_THRESHOLD: u32 = 150;

/// The score of a cache entry, from 0 to 100: it falls from 100 to 0 over the
/// lifetime, is halved in the grace period, and is ten lower once the entry is
/// marked for refresh.
pub open spec fn freshness(age: u64, ttl: u64, state: MetadataCacheState, marked: bool) -> int {
    if state == MetadataCacheState::Missing || state == MetadataCacheState::Expired {
        0
    } else {
        let by_age = if ttl == 0 {
            100
        } else if age >= ttl {
            0
        } else {
            (ttl - age) * 100 / ttl as int
        };
        let by_state = if state == MetadataCacheState::Stale {
            by_age / 2
        } else {
            by_age
        };
        let penalty = if marked {
            10int
        } else {
            0
        };
        if by_state < penalty {
            0
        } else {
            by_state - penalty
        }
    }
}

/// Whether scoring an entry stays in range.
pub open spec fn scorable(age: u64, ttl: u64) -> bool {
    age < ttl ==> (ttl - age) * 100 <= u64::MAX
}

/// The score of a cache entry.
pub fn compute_freshness_score(
    age_seconds: u64,
    ttl_seconds: u64,
    state: MetadataCacheState,
    needs_refresh_flag: bool,
) -> (score: u32)
    requires
        scorable(age_seconds, ttl_seconds),
    ensures
        score == freshness(age_seconds, ttl_seconds, state, needs_refresh_flag),
        score <= 100,
{
    match state {
        MetadataCacheState::Missing => {
            return 0;
        },
        MetadataCacheState::Expired => {
            return 0;
        },
        MetadataCacheState::Fresh => {},
        MetadataCacheState::Stale => {},
    }
    let age_score: u32 = if ttl_seconds == 0 {
        100
    } else if age_seconds >= ttl_seconds {
        0
    } else {
        let remaining: u64 = ttl_seconds - age_seconds;
        let scaled: u64 = (remaining * 100) / ttl_seconds;
        assert(scaled <= 100) by (nonlinear_arith)
            requires
                scaled == (remaining * 100) / (ttl_seconds as int),
                remaining <= ttl_seconds,
                ttl_seconds > 0,
        ;
        scaled as u32
    };
    let after_state: u32 = if state == MetadataCacheState::Stale {
        age_score / 2
    } else {
        age_score
    };
    let penalty: u32 = if needs_refresh_flag {
        10
    } else {
        0
    };
    after_state.saturating_sub(penalty)
}

/// The freshness report of an anchor.
pub open spec fn freshness_in(env: Ledger, anchor: Address) -> MetadataFreshnessReport {
    if env.cache.metadata@.contains_key(anchor) {
        let entry = env.cache.metadata@[anchor].value;
        let now = env.clock.timestamp;
        let age = age_of(entry.cached_at, now);
        let state = swr_state(entry, now);
        MetadataFreshnessReport {
            anchor,
            state,
            age_seconds: age,
            needs_refresh: entry.needs_refresh || state != MetadataCacheState::Fresh,
            freshness_score: freshness(age, entry.ttl_seconds, state, entry.needs_refresh) as u32,
        }
    } else {
        MetadataFreshnessReport {
            anchor,
            state: MetadataCacheState::Missing,
            age_seconds: 0,
            needs_refresh: false,
            freshness_score: 0,
        }
    }
}

/// What was counted for an address, or an empty count from now on.
pub open spec fn rate_state_or_new(env: Ledger, a: Address) -> RateLimitState {
    match rate_state(env, a) {
        Some(s) => s,
        None => RateLimitState { submission_count: 0, window_start_ledger: env.clock.sequence },
    }
}

/// Whether an anchor has configured a service.
pub open spec fn has_service(env: Ledger, anchor: Address, code: u32) -> bool {
    env.services.configured@.contains_key(anchor)
        && env.services.configured@[anchor].services@.contains(code)
}

/// Whether an anchor offers quotes and its latest one has not run out.
pub open spec fn quotes_now(env: Ledger, anchor: Address) -> bool {
    &&& offers_quotes(env, anchor)
    &&& latest_quote(env, anchor) is Some
    &&& latest_quote(env, anchor)->0.valid_until > env.clock.timestamp
}

/// The counters of an anchor; zero where none were stored.
pub open spec fn health_of(env: Ledger, anchor: Address) -> AnchorHealthMetrics {
    if env.health.metrics@.contains_key(anchor) {
        env.health.metrics@[anchor]
    } else {
        AnchorHealthMetrics {
            anchor,
            success_count: 0,
            failure_count: 0,
            total_calls: 0,
            uptime_bps: 0,
            last_event_at: 0,
        }
    }
}

/// A share of a total, in hundredths of a percent.
pub open spec fn share_bps(part: u64, total: u64) -> int {
    if total == 0 {
        0
    } else {
        capped_product(part, 10_000) as int / total as int
    }
}

/// The counters with more successes and failures.
pub open spec fn counted_health(
    m: AnchorHealthMetrics,
    successes: u64,
    failures: u64,
    now: u64,
) -> AnchorHealthMetrics {
    let success_count = (m.success_count + successes) as u64;
    let failure_count = (m.failure_count + failures) as u64;
    let total = (success_count + failure_count) as u64;
    AnchorHealthMetrics {
        success_count,
        failure_count,
        total_calls: total,
        uptime_bps: share_bps(success_count, total) as u32,
        last_event_at: now,
        ..m
    }
}

/// Whether counters have room for more successes and failures.
pub open spec fn has_room(m: AnchorHealthMetrics, successes: u64, failures: u64) -> bool {
    m.success_count + successes + m.failure_count + failures <= u64::MAX
}

/// The stored windows of an anchor.
pub open spec fn windows_of(env: Ledger, anchor: Address) -> Seq<AnchorHealthWindow> {
    if env.health.windows@.contains_key(anchor) {
        env.health.windows@[anchor]@
    } else {
        Seq::empty()
    }
}

/// The windows with one more, the oldest dropped when there is no room.
pub open spec fn with_window(windows: Seq<AnchorHealthWindow>, w: AnchorHealthWindow) -> Seq<
    AnchorHealthWindow,
> {
    (if windows.len() >= MAX_HEALTH_WINDOWS {
        windows.skip(1)
    } else {
        windows
    }).push(w)
}

/// The score of a value that is best up to `best` and worst from `worst` on,
/// falling in a line in between.
pub open spec fn falling_bps(value: u64, best: u64, worst: u64) -> int {
    if value <= best {
        10_000
    } else if value >= worst {
        0
    } else {
        10_000 - (value - best) * 10_000 / (worst - best)
    }
}

/// The score of successes.
pub open spec fn success_bps(w: AnchorHealthWindow) -> int {
    share_bps(w.success_count, (w.success_count + w.failure_count) as u64)
}

/// The score of latency: neutral without data, best up to 500 ms, worst from
/// 10 s on.
pub open spec fn latency_bps(w: AnchorHealthWindow) -> int {
    if w.p50_latency_ms_x10 == 0 {
        5_000
    } else {
        falling_bps(w.p50_latency_ms_x10, 5_000, 100_000)
    }
}

/// The score of routing: the share of attempts that did not fail.
pub open spec fn routing_bps(w: AnchorHealthWindow) -> int {
    if w.routing_attempt_count == 0 {
        10_000
    } else {
        share_bps(
            floored_difference(w.routing_attempt_count, w.routing_failure_count),
            w.routing_attempt_count,
        )
    }
}

/// The score of recovery: best up to a minute, worst from an hour on.
pub open spec fn recovery_bps(w: AnchorHealthWindow) -> int {
    falling_bps(w.recovery_time_seconds, 60, 3_600)
}

/// The score of a window: 40 % successes, 25 % latency, 20 % routing, 15 %
/// recovery.
pub open spec fn composite_bps(w: AnchorHealthWindow) -> int {
    (success_bps(w) * 40 + latency_bps(w) * 25 + routing_bps(w) * 20 + recovery_bps(w) * 15) / 100
}

/// Where scores are going.
pub open spec fn trend_of(previous: int, current: int) -> HealthTrendDirection {
    if current - previous > TREND_THRESHOLD {
        HealthTrendDirection::Improving
    } else if previous - current > TREND_THRESHOLD {
        HealthTrendDirection::Degrading
    } else {
        HealthTrendDirection::Stable
    }
}

/// Whether a window can be scored.
pub open spec fn can_score(w: AnchorHealthWindow) -> bool {
    w.success_count + w.failure_count <= u64::MAX
}

/// The score of an anchor, by its latest window and the one before it.
pub open spec fn health_score(env: Ledger, anchor: Address) -> AnchorHealthScore {
    let windows = windows_of(env, anchor);
    let n = windows.len() as int;
    if n == 0 {
        AnchorHealthScore {
            anchor,
            composite_bps: 0,
            success_rate_bps: 0,
            latency_bps: 0,
            routing_bps: 0,
            recovery_bps: 0,
            trend: HealthTrendDirection::Stable,
            previous_composite_bps: 0,
            scored_at: env.clock.timestamp,
            window_count: 0,
        }
    } else {
        let w = windows[n - 1];
        let previous = if n >= 2 {
            composite_bps(windows[n - 2])
        } else {
            0
        };
        AnchorHealthScore {
            anchor,
            composite_bps: composite_bps(w) as u32,
            success_rate_bps: success_bps(w) as u32,
            latency_bps: latency_bps(w) as u32,
            routing_bps: routing_bps(w) as u32,
            recovery_bps: recovery_bps(w) as u32,
            trend: if n >= 2 {
                trend_of(previous, composite_bps(w))
            } else {
                HealthTrendDirection::Stable
            },
            previous_composite_bps: previous as u32,
            scored_at: env.clock.timestamp,
            window_count: n as u32,
        }
    }
}

/// Every part of a score, and the whole, lies between 0 and 10 000.
pub proof fn scores_are_bounded(w: AnchorHealthWindow)
    requires
        can_score(w),
    ensures
        0 <= success_bps(w) <= 10_000,
        0 <= latency_bps(w) <= 10_000,
        0 <= routing_bps(w) <= 10_000,
        0 <= recovery_bps(w) <= 10_000,
        0 <= composite_bps(w) <= 10_000,
{
    shares_are_bounded(w.success_count, (w.success_count + w.failure_count) as u64);
    if w.routing_attempt_count > 0 {
        shares_are_bounded(
            floored_difference(w.routing_attempt_count, w.routing_failure_count),
            w.routing_attempt_count,
        );
    }
    falling_is_bounded(w.p50_latency_ms_x10, 5_000, 100_000);
    falling_is_bounded(w.recovery_time_seconds, 60, 3_600);
}

proof fn shares_are_bounded(part: u64, total: u64)
    requires
        part <= total,
    ensures
        0 <= share_bps(part, total) <= 10_000,
{
    if total > 0 {
        let p = capped_product(part, 10_000) as int;
        assert(p <= part * 10_000);
        assert(0 <= p / (total as int) <= 10_000) by (nonlinear_arith)
            requires
                0 <= p <= part * 10_000,
                part <= total,
                total > 0,
        ;
    }
}

proof fn falling_is_bounded(value: u64, best: u64, worst: u64)
    requires
        best < worst,
    ensures
        0 <= falling_bps(value, best, worst) <= 10_000,
{
    if best < value < worst {
        let a = value - best;
        let b = worst - best;
        assert(0 <= a * 10_000 / b <= 10_000) by (nonlinear_arith)
            requires
                0 <= a <= b,
                b > 0,
        ;
    }
}

fn share(part: u64, total: u64) -> (r: u32)
    requires
        part <= total,
    ensures
        r == share_bps(part, total),
        r <= 10_000,
{
    if total == 0 {
        return 0;
    }
    proof {
        shares_are_bounded(part, total);
    }
    (mul_capped(part, 10_000) / total) as u32
}

fn falling(value: u64, best: u64, worst: u64) -> (r: u32)
    requires
        best < worst <= 100_000,
    ensures
        r == falling_bps(value, best, worst),
        r <= 10_000,
{
    proof {
        falling_is_bounded(value, best, worst);
    }
    if value <= best {
        return 10_000;
    }
    if value >= worst {
        return 0;
    }
    let range: u64 = worst - best;
    let above: u64 = value - best;
    let loss: u64 = above * 10_000 / range;
    (10_000 - loss) as u32
}

/// The four parts of the score of a window.
fn score_one(w: &AnchorHealthWindow) -> (r: (u32, u32, u32, u32))
    requires
        can_score(*w),
    ensures
        r.0 == success_bps(*w),
        r.1 == latency_bps(*w),
        r.2 == routing_bps(*w),
        r.3 == recovery_bps(*w),
        r.0 <= 10_000,
        r.1 <= 10_000,
        r.2 <= 10_000,
        r.3 <= 10_000,
{
    let total: u64 = w.success_count + w.failure_count;
    let sr_bps: u32 = share(w.success_count, total);
    let lat_bps: u32 = if w.p50_latency_ms_x10 == 0 {
        5_000
    } else {
        falling(w.p50_latency_ms_x10, 5_000, 100_000)
    };
    let rt_bps: u32 = if w.routing_attempt_count == 0 {
        10_000
    } else {
        share(
            w.routing_attempt_count.saturating_sub(w.routing_failure_count),
            w.routing_attempt_count,
        )
    };
    let rec_bps: u32 = falling(w.recovery_time_seconds, 60, 3_600);
    (sr_bps, lat_bps, rt_bps, rec_bps)
}

fn composite_from(parts: (u32, u32, u32, u32)) -> (r: u32)
    requires
        parts.0 <= 10_000,
        parts.1 <= 10_000,
        parts.2 <= 10_000,
        parts.3 <= 10_000,
    ensures
        r == (parts.0 * 40 + parts.1 * 25 + parts.2 * 20 + parts.3 * 15) / 100,
        r <= 10_000,
{
    (parts.0 * 40 + parts.1 * 25 + parts.2 * 20 + parts.3 * 15) / 100
}

/// What stands in a policy's way of an operation.
#[derive(Clone, Copy, Debug, PartialEq, Eq, Structural)]
pub enum DenialReason {
    KycPending,
    KycRejected,
    KycExpired,
    KycNotSubmitted,
    ComplianceCheckFailed,
    ScoreBelowMinimum,
}

/// What a policy decides by.
#[derive(Clone, Copy, Debug, PartialEq, Eq)]
pub struct PolicyContext {
    pub kyc_state: KycStatus,
    pub compliance_check_passed: bool,
    pub minimum_score: Option<u32>,
    pub subject_score: Option<u32>,
    pub require_kyc: bool,
    pub require_compliance: bool,
}

/// The score of the latest check of the standard kind.
pub open spec fn score_of_subject(env: Ledger, subject: Address) -> Option<u32> {
    if env.kyc.latest@.contains_key((subject, "kyc"@)) {
        env.kyc.latest@[(subject, "kyc"@)].score
    } else {
        None
    }
}

/// The error that reports a denial.
pub open spec fn denial_code(reason: DenialReason) -> ErrorCode {
    match reason {
        DenialReason::KycPending => ErrorCode::KycPending,
        DenialReason::KycRejected => ErrorCode::KycRejected,
        DenialReason::KycExpired => ErrorCode::ComplianceNotMet,
        DenialReason::KycNotSubmitted => ErrorCode::KycNotFound,
        DenialReason::ComplianceCheckFailed => ErrorCode::ComplianceNotMet,
        DenialReason::ScoreBelowMinimum => ErrorCode::ComplianceNotMet,
    }
}

/// Why a success or a failure is not counted.
pub open spec fn health_event_refusal(env: Ledger, anchor: Address) -> Option<ContractError> {
    either(
        admin_refusal(env),
        either(
            auth_refusal(env, anchor),
            attestor_refusal(env, anchor),
        ),
    )
}

/// The ledger after a success or a failure was counted.
pub open spec fn health_event_counted(
    before: Ledger,
    after: Ledger,
    anchor: Address,
    success: bool,
) -> bool {
    let m = counted_health(
        health_of(before, anchor),
        if success {
            1
        } else {
            0
        },
        if success {
            0
        } else {
            1
        },
        before.clock.timestamp,
    );
    &&& after == (Ledger {
        health: HealthState {
            metrics: after.health.metrics,
            ..before.health
        },
        events: after.events,
        ..before
    })
    &&& after.health.metrics@ == before.health.metrics@.insert(anchor, m)
    &&& after.events@ == before.events@.push(
        Event::HealthRecorded(anchor, success, m.uptime_bps),
    )
}

/// The ledger after the counters of an anchor were set to zero.
pub open spec fn health_reset(before: Ledger, after: Ledger, anchor: Address) -> bool {
    &&& after == (Ledger {
        health: HealthState {
            metrics: after.health.metrics,
            ..before.health
        },
        ..before
    })
    &&& after.health.metrics@ == before.health.metrics@.insert(
        anchor,
        (AnchorHealthMetrics {
            anchor,
            success_count: 0,
            failure_count: 0,
            total_calls: 0,
            uptime_bps: 0,
            last_event_at: before.clock.timestamp,
        }),
    )
}

/// The ledger after a window of observations was stored.
pub open spec fn health_window_recorded(
    before: Ledger,
    after: Ledger,
    anchor: Address,
    window: AnchorHealthWindow,
) -> bool {
    let stored = after.health.windows@[anchor];
    &&& after == (Ledger {
        health: after.health,
        events: after.events,
        ..before
    })
    &&& after.health.windows@ == before.health.windows@.insert(anchor, stored)
    &&& stored@ == with_window(windows_of(before, anchor), window)
    &&& after.health.metrics@ == before.health.metrics@.insert(
        anchor,
        counted_health(
            health_of(before, anchor),
            window.success_count,
            window.failure_count,
            before.clock.timestamp,
        ),
    )
    &&& after.events@ == before.events@.push(
        Event::HealthWindowRecorded(
            anchor,
            window.success_count,
            window.failure_count,
        ),
    )
}

/// The ledger after the proof of an endpoint was stored.
pub open spec fn proof_registered(
    before: Ledger,
    after: Ledger,
    anchor: Address,
    endpoint: String,
    proof_hash: [u8; 32],
) -> bool {
    let now = before.clock.timestamp;
    &&& after == (Ledger {
        attestors: AttestorState {
            proofs: after.attestors.proofs,
            ..before.attestors
        },
        events: after.events,
        ..before
    })
    &&& after.attestors.proofs@ == before.attestors.proofs@.insert(
        anchor,
        (AnchorProofRecord {
            anchor,
            endpoint,
            proof_hash,
            registered_at: now,
            verified: false,
        }),
    )
    &&& after.events@ == before.events@.push(Event::ProofRegistered(anchor, now))
}

/// What a policy decides by for a subject.
pub open spec fn context_for_policy(
    env: Ledger,
    subject: Address,
    require_kyc: bool,
    require_compliance: bool,
) -> Option<PolicyContext> {
    if !require_kyc && !require_compliance {
        None::<PolicyContext>
    } else {
        Some(
            PolicyContext {
                kyc_state: kyc_status_in(env, subject),
                compliance_check_passed: compliance_passed(env, subject),
                minimum_score: compliance_policy_in(env).minimum_score,
                subject_score: score_of_subject(env, subject),
                require_kyc,
                require_compliance,
            },
        )
    }
}

/// Whether the contract is up.
pub open spec fn status_in(env: Ledger) -> HealthStatus {
    if !env.access.initialized {
        HealthStatus::Unavailable
    } else if env.rates.config is Some {
        HealthStatus::Healthy
    } else {
        HealthStatus::Degraded
    }
}

/// Where an attestor stands under the limit for everyone.
pub open spec fn limiter_health(env: Ledger, attestor: Address) -> RateLimiterHealth {
    let config = global_limit(env);
    let state = rate_state_or_new(env, attestor);
    let over = window_over(
        state.window_start_ledger,
        config.window_length,
        env.clock.sequence,
    );
    let count = if over {
        0
    } else {
        state.submission_count
    };
    RateLimiterHealth {
        attestor,
        submission_count: count,
        max_submissions: config.max_submissions,
        window_length: config.window_length,
        window_start_ledger: state.window_start_ledger,
        is_throttled: !over && count >= config.max_submissions,
    }
}

/// What was counted for an attestor in the current window.
pub open spec fn limiter_diagnostics(env: Ledger, attestor: Address) -> RateLimiterDiagnostics {
    let config = global_limit(env);
    let state = rate_state_or_new(env, attestor);
    let count = if window_over(
        state.window_start_ledger,
        config.window_length,
        env.clock.sequence,
    ) {
        0
    } else {
        state.submission_count
    };
    RateLimiterDiagnostics {
        attestor,
        submission_count: count,
        window_start_ledger: state.window_start_ledger,
        max_submissions: config.max_submissions,
        window_length: config.window_length,
        is_at_limit: count >= config.max_submissions,
        checked_at: env.clock.timestamp,
    }
}

/// Which services of an anchor are ready.
pub open spec fn readiness_of(env: Ledger, anchor: Address) -> AnchorReadinessReport {
    AnchorReadinessReport {
        anchor,
        is_registered: env.attestors.registered@.contains_key(anchor)
            && env.attestors.registered@[anchor],
        deposit_ready: has_service(env, anchor, SERVICE_DEPOSITS),
        withdrawal_ready: has_service(env, anchor, SERVICE_WITHDRAWALS),
        quote_ready: quotes_now(env, anchor),
        kyc_ready: has_service(env, anchor, SERVICE_KYC),
        checked_at: env.clock.timestamp,
    }
}

/// What is cached of an anchor, and how old it is.
pub open spec fn cache_diagnosed(env: Ledger, anchor: Address) -> CacheDiagnostics {
    let now = env.clock.timestamp;
    let has_metadata = env.cache.metadata@.contains_key(anchor);
    let metadata = env.cache.metadata@[anchor].value;
    let has_capabilities = env.cache.capabilities@.contains_key(anchor);
    let capabilities = env.cache.capabilities@[anchor].value;
    CacheDiagnostics {
        anchor,
        metadata_cached: has_metadata,
        metadata_age_seconds: if has_metadata {
            age_of(metadata.cached_at, now)
        } else {
            0
        },
        metadata_ttl_seconds: if has_metadata {
            metadata.ttl_seconds
        } else {
            0
        },
        capabilities_cached: has_capabilities,
        capabilities_age_seconds: if has_capabilities {
            age_of(capabilities.cached_at, now)
        } else {
            0
        },
        capabilities_ttl_seconds: if has_capabilities {
            capabilities.ttl_seconds
        } else {
            0
        },
        checked_at: now,
    }
}

/// The counters of the contract.
pub open spec fn contract_diagnosed(env: Ledger) -> ContractDiagnostics {
    ContractDiagnostics {
        is_initialized: env.access.initialized,
        total_attestations: env.attestations.counter,
        total_quotes: env.quotes.count,
        total_sessions: env.sessions.count,
        rate_limit_max_submissions: global_limit(env).max_submissions,
        rate_limit_window_length: global_limit(env).window_length,
        checked_at: env.clock.timestamp,
    }
}

/// The ledger after a hash was held against the proof of an anchor.
pub open spec fn proof_judged(
    before: Ledger,
    after: Ledger,
    anchor: Address,
    proof_hash: [u8; 32],
    out: bool,
) -> bool {
    let stored = before.attestors.proofs@.contains_key(anchor);
    let record = before.attestors.proofs@[anchor];
    let now = before.clock.timestamp;
    &&& out == (stored && record.proof_hash == proof_hash)
    &&& !stored ==> after == before
    &&& stored && !out ==> {
        &&& after == (Ledger { events: after.events, ..before })
        &&& after.events@ == before.events@.push(Event::ProofFailed(anchor, now))
    }
    &&& out ==> {
        &&& after == (Ledger {
            attestors: AttestorState {
                proofs: after.attestors.proofs,
                ..before.attestors
            },
            events: after.events,
            ..before
        })
        &&& after.attestors.proofs@ == before.attestors.proofs@.insert(
            anchor,
            (AnchorProofRecord { verified: true, ..record }),
        )
        &&& after.events@ == before.events@.push(
            Event::ProofVerified(anchor, now),
        )
    }
}

impl AnchorKitContract {
    /// What a policy decides by for a subject; `None` where nothing is asked
    /// for.
    pub fn policy_context(
        env: &Ledger,
        subject: Address,
        require_kyc: bool,
        require_compliance: bool,
    ) -> (r: Option<PolicyContext>)
        ensures
            r == context_for_policy(*env, subject, require_kyc, require_compliance),
    {
        if !require_kyc && !require_compliance {
            return None;
        }
        let kyc_state = Self::get_kyc_status(env, subject);
        let subject_score = match env.kyc.latest.get(&(subject, "kyc".to_owned())) {
            Some(c) => c.score,
            None => None,
        };
        let policy = Self::get_compliance_policy(env);
        Some(
            PolicyContext {
                kyc_state,
                compliance_check_passed: Self::has_passed_compliance(env, &subject),
                minimum_score: policy.minimum_score,
                subject_score,
                require_kyc,
                require_compliance,
            },
        )
    }

    /// Refuses what a policy denies.
    pub fn enforce_policy(denial: Option<DenialReason>) -> (r: Result<(), ContractError>)
        ensures
            follows(
                r,
                match denial {
                    None => None,
                    Some(reason) => Some(ContractError::Code(denial_code(reason))),
                },
            ),
    {
        match denial {
            None => Ok(()),
            Some(DenialReason::KycPending) => Err(ContractError::Code(ErrorCode::KycPending)),
            Some(DenialReason::KycRejected) => Err(ContractError::Code(ErrorCode::KycRejected)),
            Some(DenialReason::KycExpired) => Err(
                ContractError::Code(ErrorCode::ComplianceNotMet),
            ),
            Some(DenialReason::KycNotSubmitted) => Err(ContractError::Code(ErrorCode::KycNotFound)),
            Some(DenialReason::ComplianceCheckFailed) => Err(
                ContractError::Code(ErrorCode::ComplianceNotMet),
            ),
            Some(DenialReason::ScoreBelowMinimum) => Err(
                ContractError::Code(ErrorCode::ComplianceNotMet),
            ),
        }
    }

    /// Whether the contract is up: unavailable before it is initialised,
    /// degraded while the default rate limit is in use.
    pub fn get_health_status(env: &Ledger) -> (s: HealthStatus)
        ensures
            s == status_in(*env),
    {
        if !env.access.initialized {
            return HealthStatus::Unavailable;
        }
        if env.rates.config.is_some() {
            HealthStatus::Healthy
        } else {
            HealthStatus::Degraded
        }
    }

    /// How fresh the cached metadata of an anchor is.
    pub fn get_metadata_freshness(env: &Ledger, anchor: Address) -> (r: MetadataFreshnessReport)
        requires
            env.cache.metadata@.contains_key(anchor) ==> scorable(
                age_of(env.cache.metadata@[anchor].value.cached_at, env.clock.timestamp),
                env.cache.metadata@[anchor].value.ttl_seconds,
            ),
        ensures
            r == freshness_in(*env, anchor),
            r.freshness_score <= 100,
    {
        match env.cache.metadata.get(&anchor) {
            None => MetadataFreshnessReport {
                anchor,
                state: MetadataCacheState::Missing,
                age_seconds: 0,
                needs_refresh: false,
                freshness_score: 0,
            },
            Some(entry) => {
                let now: u64 = env.clock.timestamp;
                let age: u64 = now.saturating_sub(entry.value.cached_at);
                let state = swr_state_of(&entry.value, now);
                let needs_refresh = entry.value.needs_refresh || state != MetadataCacheState::Fresh;
                let freshness_score: u32 = compute_freshness_score(
                    age,
                    entry.value.ttl_seconds,
                    state,
                    entry.value.needs_refresh,
                );
                MetadataFreshnessReport {
                    anchor,
                    state,
                    age_seconds: age,
                    needs_refresh,
                    freshness_score,
                }
            },
        }
    }

    fn counted_so_far(env: &Ledger, attestor: &Address) -> (s: RateLimitState)
        ensures
            s == rate_state_or_new(*env, *attestor),
    {
        match env.rates.states.get(attestor) {
            Some(s) => *s,
            None => RateLimitState { submission_count: 0, window_start_ledger: env.clock.sequence },
        }
    }

    /// Where an attestor stands under the limit for everyone.
    pub fn get_rate_limiter_health(env: &Ledger, attestor: Address) -> (r: RateLimiterHealth)
        ensures
            r == limiter_health(*env, attestor),
    {
        let config = Self::get_rate_limit_config(env);
        let state = Self::counted_so_far(env, &attestor);
        let window_expired = is_window_expired(
            state.window_start_ledger,
            config.window_length,
            env.clock.sequence,
        );
        let effective_count: u32 = if window_expired {
            0
        } else {
            state.submission_count
        };
        RateLimiterHealth {
            attestor,
            submission_count: effective_count,
            max_submissions: config.max_submissions,
            window_length: config.window_length,
            window_start_ledger: state.window_start_ledger,
            is_throttled: !window_expired && effective_count >= config.max_submissions,
        }
    }

    fn offers(env: &Ledger, anchor: &Address, code: u32) -> (r: bool)
        ensures
            r == has_service(*env, *anchor, code),
    {
        match env.services.configured.get(anchor) {
            Some(s) => lists_code(&s.services, code),
            None => false,
        }
    }

    /// Which services of an anchor are ready.
    pub fn get_anchor_readiness(env: &Ledger, anchor: Address) -> (r: AnchorReadinessReport)
        ensures
            r == readiness_of(*env, anchor),
    {
        AnchorReadinessReport {
            anchor,
            is_registered: Self::is_attestor(env, anchor),
            deposit_ready: Self::offers(env, &anchor, SERVICE_DEPOSITS),
            withdrawal_ready: Self::offers(env, &anchor, SERVICE_WITHDRAWALS),
            quote_ready: Self::is_quote_ready(env, anchor),
            kyc_ready: Self::offers(env, &anchor, SERVICE_KYC),
            checked_at: env.clock.timestamp,
        }
    }

    /// Whether an anchor has configured deposits.
    pub fn is_deposit_ready(env: &Ledger, anchor: Address) -> (r: bool)
        ensures
            r == has_service(*env, anchor, SERVICE_DEPOSITS),
    {
        Self::offers(env, &anchor, SERVICE_DEPOSITS)
    }

    /// Whether an anchor offers quotes and its latest one has not run out.
    pub fn is_quote_ready(env: &Ledger, anchor: Address) -> (r: bool)
        ensures
            r == quotes_now(*env, anchor),
    {
        if !Self::offers(env, &anchor, SERVICE_QUOTES) {
            return false;
        }
        match env.quotes.latest.get(&anchor) {
            None => false,
            Some(id) => match env.quotes.records.get(&(anchor, *id)) {
                Some(q) => q.valid_until > env.clock.timestamp,
                None => false,
            },
        }
    }

    /// What was counted for an attestor in the current window.
    pub fn get_rate_limiter_diagnostics(env: &Ledger, attestor: Address) -> (r:
        RateLimiterDiagnostics)
        ensures
            r == limiter_diagnostics(*env, attestor),
    {
        let config = Self::get_rate_limit_config(env);
        let state = Self::counted_so_far(env, &attestor);
        let count: u32 = if is_window_expired(
            state.window_start_ledger,
            config.window_length,
            env.clock.sequence,
        ) {
            0
        } else {
            state.submission_count
        };
        RateLimiterDiagnostics {
            attestor,
            submission_count: count,
            window_start_ledger: state.window_start_ledger,
            max_submissions: config.max_submissions,
            window_length: config.window_length,
            is_at_limit: count >= config.max_submissions,
            checked_at: env.clock.timestamp,
        }
    }

    /// What is cached of an anchor, and how old it is.
    pub fn get_cache_diagnostics(env: &Ledger, anchor: Address) -> (r: CacheDiagnostics)
        ensures
            r == cache_diagnosed(*env, anchor),
    {
        let now: u64 = env.clock.timestamp;
        let (metadata_cached, metadata_age_seconds, metadata_ttl_seconds) =
            match env.cache.metadata.get(&anchor) {
            Some(entry) => (
                true,
                now.saturating_sub(entry.value.cached_at),
                entry.value.ttl_seconds,
            ),
            None => (false, 0, 0),
        };
        let (capabilities_cached, capabilities_age_seconds, capabilities_ttl_seconds) =
            match env.cache.capabilities.get(&anchor) {
            Some(entry) => (
                true,
                now.saturating_sub(entry.value.cached_at),
                entry.value.ttl_seconds,
            ),
            None => (false, 0, 0),
        };
        CacheDiagnostics {
            anchor,
            metadata_cached,
            metadata_age_seconds,
            metadata_ttl_seconds,
            capabilities_cached,
            capabilities_age_seconds,
            capabilities_ttl_seconds,
            checked_at: now,
        }
    }

    /// How many sessions were ever opened.
    pub fn get_session_diagnostics(env: &Ledger) -> (r: SessionDiagnostics)
        ensures
            r == (SessionDiagnostics {
                total_sessions_created: env.sessions.count,
                checked_at: env.clock.timestamp,
            }),
    {
        SessionDiagnostics {
            total_sessions_created: env.sessions.count,
            checked_at: env.clock.timestamp,
        }
    }

    fn add_to_health(env: &mut Ledger, anchor: Address, successes: u64, failures: u64) -> (bps: u32)
        requires
            has_room(health_of(*old(env), anchor), successes, failures),
        ensures
            ({
                let m = counted_health(
                    health_of(*old(env), anchor),
                    successes,
                    failures,
                    old(env).clock.timestamp,
                );
                &&& *final(env) == (Ledger {
                    health: HealthState {
                        metrics: final(env).health.metrics,
                        ..old(env).health
                    },
                    ..*old(env)
                })
                &&& final(env).health.metrics@ == old(env).health.metrics@.insert(anchor, m)
                &&& bps == m.uptime_bps
                &&& bps <= 10_000
            }),
    {
        let mut metrics = Self::get_anchor_health(env, anchor);
        metrics.success_count = metrics.success_count + successes;
        metrics.failure_count = metrics.failure_count + failures;
        metrics.total_calls = metrics.success_count + metrics.failure_count;
        metrics.uptime_bps = share(metrics.success_count, metrics.total_calls);
        metrics.last_event_at = env.clock.timestamp;
        env.health.metrics.set(anchor, metrics);
        metrics.uptime_bps
    }

    /// Counts a success or a failure of an anchor.
    pub fn record_health_event(env: &mut Ledger, anchor: Address, success: bool) -> (r: Result<
        (),
        ContractError,
    >)
        requires
            has_room(health_of(*old(env), anchor), 1, 0),
        ensures
            follows(r, health_event_refusal(*old(env), anchor)),
            r is Err ==> *final(env) == *old(env),
            r is Ok ==> health_event_counted(*old(env), *final(env), anchor, success),
    {
        if let Err(e) = env.require_admin() {
            return Err(e);
        }
        if let Err(e) = env.require_auth(&anchor) {
            return Err(e);
        }
        if let Err(e) = env.check_attestor(&anchor) {
            return Err(e);
        }
        let bps: u32 = if success {
            Self::add_to_health(env, anchor, 1, 0)
        } else {
            Self::add_to_health(env, anchor, 0, 1)
        };
        env.publish(Event::HealthRecorded(anchor, success, bps));
        Ok(())
    }

    /// The counters of an anchor; zero where nothing was counted.
    pub fn get_anchor_health(env: &Ledger, anchor: Address) -> (m: AnchorHealthMetrics)
        ensures
            m == health_of(*env, anchor),
    {
        match env.health.metrics.get(&anchor) {
            Some(m) => *m,
            None => AnchorHealthMetrics {
                anchor,
                success_count: 0,
                failure_count: 0,
                total_calls: 0,
                uptime_bps: 0,
                last_event_at: 0,
            },
        }
    }

    /// Sets the counters of an anchor to zero.
    pub fn reset_anchor_health(env: &mut Ledger, anchor: Address) -> (r: Result<(), ContractError>)
        ensures
            follows(r, admin_refusal(*old(env))),
            r is Err ==> *final(env) == *old(env),
            r is Ok ==> health_reset(*old(env), *final(env), anchor),
    {
        if let Err(e) = env.require_admin() {
            return Err(e);
        }
        let metrics = AnchorHealthMetrics {
            anchor,
            success_count: 0,
            failure_count: 0,
            total_calls: 0,
            uptime_bps: 0,
            last_event_at: env.clock.timestamp,
        };
        env.health.metrics.set(anchor, metrics);
        Ok(())
    }

    /// Stores a window of observations of an anchor; the last twenty-four are
    /// kept. Its successes and failures are counted.
    pub fn record_health_window(
        env: &mut Ledger,
        anchor: Address,
        window: AnchorHealthWindow,
    ) -> (r: Result<(), ContractError>)
        requires
            has_room(
                health_of(*old(env), anchor),
                window.success_count,
                window.failure_count,
            ),
        ensures
            follows(r, admin_refusal(*old(env))),
            r is Err ==> *final(env) == *old(env),
            r is Ok ==> health_window_recorded(*old(env), *final(env), anchor, window),
    {
        if let Err(e) = env.require_admin() {
            return Err(e);
        }
        if env.health.windows.has(&anchor) {
            if let Some(windows) = env.health.windows.get_mut(&anchor) {
                if windows.len() >= MAX_HEALTH_WINDOWS {
                    let ghost before = windows@;
                    windows.remove(0);
                    assert(windows@ =~= before.skip(1));
                }
                windows.push(window);
            }
        } else {
            let mut windows: Vec<AnchorHealthWindow> = Vec::new();
            windows.push(window);
            assert(windows@ =~= Seq::<AnchorHealthWindow>::empty().push(window));
            env.health.windows.set(anchor, windows);
        }
        Self::add_to_health(env, anchor, window.success_count, window.failure_count);
        env.publish(
            Event::HealthWindowRecorded(anchor, window.success_count, window.failure_count),
        );
        Ok(())
    }

    /// The score of an anchor by its latest window, and where it is going.
    pub fn get_anchor_health_score(env: &Ledger, anchor: Address) -> (r: AnchorHealthScore)
        requires
            ({
                let windows = windows_of(*env, anchor);
                let n = windows.len() as int;
                &&& n <= u32::MAX
                &&& n >= 1 ==> can_score(windows[n - 1])
                &&& n >= 2 ==> can_score(windows[n - 2])
            }),
        ensures
            r == health_score(*env, anchor),
            r.composite_bps <= 10_000,
    {
        let now: u64 = env.clock.timestamp;
        let none = AnchorHealthScore {
            anchor,
            composite_bps: 0,
            success_rate_bps: 0,
            latency_bps: 0,
            routing_bps: 0,
            recovery_bps: 0,
            trend: HealthTrendDirection::Stable,
            previous_composite_bps: 0,
            scored_at: now,
            window_count: 0,
        };
        let windows = match env.health.windows.get(&anchor) {
            Some(w) => w,
            None => {
                return none;
            },
        };
        let n: usize = windows.len();
        if n == 0 {
            return none;
        }
        let parts = score_one(&windows[n - 1]);
        let composite: u32 = composite_from(parts);
        let mut trend = HealthTrendDirection::Stable;
        let mut previous: u32 = 0;
        if n >= 2 {
            previous = composite_from(score_one(&windows[n - 2]));
            if composite > previous && composite - previous > TREND_THRESHOLD {
                trend = HealthTrendDirection::Improving;
            } else if previous > composite && previous - composite > TREND_THRESHOLD {
                trend = HealthTrendDirection::Degrading;
            }
        }
        AnchorHealthScore {
            anchor,
            composite_bps: composite,
            success_rate_bps: parts.0,
            latency_bps: parts.1,
            routing_bps: parts.2,
            recovery_bps: parts.3,
            trend,
            previous_composite_bps: previous,
            scored_at: now,
            window_count: n as u32,
        }
    }

    /// The stored windows of an anchor, oldest first.
    pub fn get_anchor_health_windows(env: &Ledger, anchor: Address) -> (r: Vec<AnchorHealthWindow>)
        ensures
            r@ == windows_of(*env, anchor),
    {
        let mut result: Vec<AnchorHealthWindow> = Vec::new();
        if let Some(windows) = env.health.windows.get(&anchor) {
            let mut i: usize = 0;
            while i < windows.len()
                invariant
                    0 <= i <= windows@.len(),
                    result@ == windows@.take(i as int),
                decreases windows@.len() - i,
            {
                result.push(windows[i]);
                assert(windows@.take(i + 1) =~= windows@.take(i as int).push(windows@[i as int]));
                i = i + 1;
            }
            assert(windows@.take(i as int) =~= windows@);
        }
        assert(result@ =~= windows_of(*env, anchor));
        result
    }

    /// Stores the proof of an anchor that it controls an endpoint. Where an
    /// endpoint is configured in its profile, the proof must be for that one.
    /// The caller reports whether the endpoint is a valid one.
    pub fn register_endpoint_proof(
        env: &mut Ledger,
        anchor: Address,
        endpoint: String,
        proof_hash: [u8; 32],
        endpoint_valid: bool,
    ) -> (r: Result<(), ContractError>)
        ensures
            ({
                let configured = profile_of(*old(env), anchor).endpoint;
                follows(
                    r,
                    either(
                        profile_refusal(*old(env), anchor, endpoint_valid),
                        refuse_when(
                            configured.len() != 0 && configured != endpoint@,
                            ErrorCode::ValidationError,
                        ),
                    ),
                )
            }),
            r is Err ==> *final(env) == *old(env),
            r is Ok ==> proof_registered(*old(env), *final(env), anchor, endpoint, proof_hash),
    {
        if let Err(e) = env.require_auth(&anchor) {
            return Err(e);
        }
        if let Err(e) = env.check_attestor(&anchor) {
            return Err(e);
        }
        if !endpoint_valid {
            return Err(ContractError::Code(ErrorCode::InvalidEndpointFormat));
        }
        let profile = Self::load_or_init_profile(env, &anchor);
        if profile.endpoint.as_str().unicode_len() != 0 && !same_text(
            profile.endpoint.as_str(),
            endpoint.as_str(),
        ) {
            return Err(ContractError::Code(ErrorCode::ValidationError));
        }
        let now: u64 = env.clock.timestamp;
        let record = AnchorProofRecord {
            anchor,
            endpoint,
            proof_hash,
            registered_at: now,
            verified: false,
        };
        env.attestors.proofs.set(anchor, record);
        env.publish(Event::ProofRegistered(anchor, now));
        Ok(())
    }

    /// Whether a hash is the stored proof of an anchor. A match marks the proof
    /// as verified; match and mismatch are announced.
    pub fn verify_endpoint_proof(env: &mut Ledger, anchor: Address, proof_hash: [u8; 32]) -> (r:
        bool)
        ensures
            proof_judged(*old(env), *final(env), anchor, proof_hash, r),
    {
        let matches_stored = match env.attestors.proofs.get(&anchor) {
            None => {
                return false;
            },
            Some(record) => crate::address::same32(&record.proof_hash, &proof_hash),
        };
        let now: u64 = env.clock.timestamp;
        if !matches_stored {
            env.publish(Event::ProofFailed(anchor, now));
            return false;
        }
        if let Some(record) = env.attestors.proofs.get_mut(&anchor) {
            record.verified = true;
        }
        env.publish(Event::ProofVerified(anchor, now));
        true
    }

    /// The stored proof of an anchor.
    pub fn get_endpoint_proof(env: &Ledger, anchor: Address) -> (r: Option<AnchorProofRecord>)
        ensures
            r == (if env.attestors.proofs@.contains_key(anchor) {
                Some(env.attestors.proofs@[anchor])
            } else {
                None
            }),
    {
        match env.attestors.proofs.get(&anchor) {
            Some(record) => Some(record.clone()),
            None => None,
        }
    }

    /// The counters of the contract.
    pub fn get_contract_diagnostics(env: &Ledger) -> (r: ContractDiagnostics)
        ensures
            r == contract_diagnosed(*env),
    {
        let config = Self::get_rate_limit_config(env);
        ContractDiagnostics {
            is_initialized: env.access.initialized,
            total_attestations: env.attestations.counter,
            total_quotes: env.quotes.count,
            total_sessions: env.sessions.count,
            rate_limit_max_submissions: config.max_submissions,
            rate_limit_window_length: config.window_length,
            checked_at: env.clock.timestamp,
        }
    }

    /// The ecosystem proposals that the contract supports.
    pub fn supported_seps() -> (r: Vec<u32>)
        ensures
            r@ == seq![6u32, 10u32, 24u32, 31u32, 38u32],
    {
        let mut v: Vec<u32> = Vec::new();
        v.push(SEP_6);
        v.push(SEP_10);
        v.push(SEP_24);
        v.push(SEP_31);
        v.push(SEP_38);
        assert(v@ =~= seq![6u32, 10u32, 24u32, 31u32, 38u32]);
        v
    }

    /// The ecosystem proposals that the contract supports, as flags.
    pub fn supported_sep_feature_flags() -> (r: SepFeatureFlags)
        ensures
            r == (SepFeatureFlags { sep6: true, sep10: true, sep24: true, sep31: true, sep38: true }),
    {
        SepFeatureFlags { sep6: true, sep10: true, sep24: true, sep31: true, sep38: true }
    }
}

/// No more than twenty-four windows are kept, and the newest is among them.
pub proof fn windows_are_bounded(windows: Seq<AnchorHealthWindow>, w: AnchorHealthWindow)
    requires
        windows.len() <= MAX_HEALTH_WINDOWS,
    ensures
        with_window(windows, w).len() <= MAX_HEALTH_WINDOWS,
        with_window(windows, w).last() == w,
{
}

} // verus!
