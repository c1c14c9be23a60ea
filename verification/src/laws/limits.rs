//! Laws of rate limits.
use crate::address::Address;
use crate::contract::events::Event;
use crate::contract::ledger::{ContractError, Ledger, RateState};
use crate::contract::limits::{
    global_limit, limit_hit, limit_of, limit_refusal, limit_under, rate_counted, rate_step,
};
use crate::contract::types::{AdminCapability, AdminRole};
use crate::errors::ErrorCode;
use crate::rate_limiter::{counted, window_over, RateLimitConfig, RateLimitState};
use vstd::prelude::*;

verus! {

/// A window is over once as many ledgers have passed as it is long, and at the last
/// ledger of all.
pub proof fn windows_end(start: u32, length: u32, now: u32)
    ensures
        now < u32::MAX ==> (window_over(start, length, now) <==> now >= start + length),
        now == u32::MAX ==> window_over(start, length, now),
{
}

/// In its window an address may submit until it has done so as often as allowed:
/// each time counts one, and the window stays. Where its window is over, or it has
/// none, it starts one with the first of them.
pub proof fn submissions_are_counted(
    state: Option<RateLimitState>,
    config: RateLimitConfig,
    now: u32,
)
    requires
        now < u32::MAX,
    ensures
        ({
            let r = counted(state, config, now);
            let live = state is Some && now < state->0.window_start_ledger + config.window_length;
            &&& live ==> {
                &&& r is Some <==> state->0.submission_count < config.max_submissions
                &&& r is Some ==> r->0.submission_count == state->0.submission_count + 1
                    && r->0.window_start_ledger == state->0.window_start_ledger
            }
            &&& !live ==> {
                &&& r is Some <==> config.max_submissions > 0
                &&& r is Some ==> r->0.submission_count == 1 && r->0.window_start_ledger == now
            }
        }),
{
}

/// The submissions of one window that are let through, one after another.
pub open spec fn after_submissions(
    state: Option<RateLimitState>,
    config: RateLimitConfig,
    now: u32,
    n: nat,
) -> Option<RateLimitState>
    decreases n,
{
    if n == 0 {
        state
    } else {
        match after_submissions(state, config, now, (n - 1) as nat) {
            Some(s) => counted(Some(s), config, now),
            None => counted(None, config, now),
        }
    }
}

/// From an address that has not submitted, exactly as many submissions at one
/// ledger are let through as the limit allows, and one more is refused.
pub proof fn a_window_lets_through_what_is_allowed(config: RateLimitConfig, now: u32, n: nat)
    requires
        now < u32::MAX,
        config.window_length > 0,
        1 <= n <= config.max_submissions,
    ensures
        ({
            let s = after_submissions(None, config, now, n);
            &&& s is Some
            &&& s->0.submission_count == n
            &&& s->0.window_start_ledger == now
            &&& counted(s, config, now) is Some <==> n < config.max_submissions
        }),
    decreases n,
{
    if n > 1 {
        a_window_lets_through_what_is_allowed(config, now, (n - 1) as nat);
    } else {
        assert(after_submissions(None, config, now, 0) is None);
    }
}

/// The limit for everyone is ten submissions in a hundred ledgers, unless another
/// one was set.
pub proof fn everyone_has_a_limit(env: Ledger)
    ensures
        env.rates.config is None ==> global_limit(env).max_submissions == 10 && global_limit(
            env,
        ).window_length == 100,
        env.rates.config is Some ==> global_limit(env) == env.rates.config->0,
{
}

/// Which limit holds for an address: its own; else that of the first role it holds,
/// the roles being taken in the order of identity, attestors and cache; else that
/// of everyone.
pub proof fn limits_are_chosen(env: Ledger, a: Address)
    ensures
        ({
            let plays = |role: AdminRole|
                env.access.admin == Some(a) || (env.access.roles@.contains_key((role, a))
                    && env.access.roles@[(role, a)]);
            let own = env.rates.addresses@.contains_key(a);
            let kyc = plays(AdminRole::KycAdmin);
            let attestor = plays(AdminRole::AttestorAdmin);
            let cache = plays(AdminRole::CacheAdmin);
            &&& own ==> limit_of(env, a) == env.rates.addresses@[a]
            &&& !own && kyc && env.rates.roles@.contains_key("KycAdmin"@) ==> limit_of(env, a)
                == env.rates.roles@["KycAdmin"@]
            &&& !own && !kyc && attestor && env.rates.roles@.contains_key("AttestorAdmin"@)
                ==> limit_of(env, a) == env.rates.roles@["AttestorAdmin"@]
            &&& !own && !kyc && !attestor && cache && env.rates.roles@.contains_key("CacheAdmin"@)
                ==> limit_of(env, a) == env.rates.roles@["CacheAdmin"@]
            &&& !own && !kyc && !attestor && !cache ==> limit_of(env, a) == global_limit(env)
            &&& !own && kyc && !env.rates.roles@.contains_key("KycAdmin"@) ==> limit_of(env, a)
                == global_limit(env)
        }),
{
}

/// A limit that was set for a named role holds for whom it is asked under that
/// name, except where the address has its own.
pub proof fn limits_are_chosen_by_name(env: Ledger, a: Address, role: Seq<char>)
    ensures
        env.rates.addresses@.contains_key(a) ==> limit_under(env, a, Some(role))
            == env.rates.addresses@[a],
        !env.rates.addresses@.contains_key(a) && env.rates.roles@.contains_key(role) ==> limit_under(
            env,
            a,
            Some(role),
        ) == env.rates.roles@[role],
        !env.rates.addresses@.contains_key(a) && !env.rates.roles@.contains_key(role) ==> limit_under(
            env,
            a,
            Some(role),
        ) == global_limit(env),
        !env.rates.addresses@.contains_key(a) ==> limit_under(env, a, None) == global_limit(env),
{
}

/// An address is over its limit exactly where it has submitted in its window as
/// often as its limit allows.
pub proof fn addresses_reach_their_limit(env: Ledger, a: Address)
    requires
        env.clock.sequence < u32::MAX,
        limit_of(env, a).max_submissions > 0,
    ensures
        ({
            let limit = limit_of(env, a);
            let s = env.rates.states@[a];
            rate_step(env, a) is None <==> {
                &&& env.rates.states@.contains_key(a)
                &&& env.clock.sequence < s.window_start_ledger + limit.window_length
                &&& s.submission_count >= limit.max_submissions
            }
        }),
{
}

/// Counting for one address changes nothing for another.
pub proof fn counts_are_kept_apart(
    before: RateState,
    after: RateState,
    a: Address,
    s: RateLimitState,
    other: Address,
)
    requires
        rate_counted(before, after, a, s),
    ensures
        after.states@.contains_key(a),
        after.states@[a] == s,
        other != a ==> after.states@.contains_key(other) == before.states@.contains_key(other)
            && after.states@[other] == before.states@[other],
        after.config == before.config,
        after.roles == before.roles,
        after.addresses == before.addresses,
{
}

/// A limit is set exactly by the admin or by one who was granted the capability
/// for it, who has signed the call, and only to one that lets something through
/// and has a window.
pub proof fn limits_are_set_with_care(env: Ledger, caller: Address, config: RateLimitConfig)
    ensures
        ({
            let capable = env.access.admin == Some(caller) || (env.access.capabilities@.contains_key(
                (AdminCapability::SetRateLimits, caller),
            ) && env.access.capabilities@[(AdminCapability::SetRateLimits, caller)]);
            let signed = env.auth.all || env.auth.signers@.contains(caller);
            let sound = config.max_submissions > 0 && config.window_length > 0;
            &&& limit_refusal(env, caller, config) is None <==> capable && signed && sound
            &&& !capable ==> limit_refusal(env, caller, config) == Some(
                ContractError::Code(ErrorCode::Unauthorized),
            )
            &&& capable && signed && !sound ==> limit_refusal(env, caller, config) == Some(
                ContractError::Code(ErrorCode::ValidationError),
            )
        }),
{
}

/// That a limit was reached is announced with whose it is, when and at which
/// ledger.
pub proof fn hits_are_announced(env: Ledger, a: Address)
    ensures
        limit_hit(env, a) matches Event::RateLimitHit(e) && e.attestor == a && e.timestamp
            == env.clock.timestamp && e.ledger_sequence == env.clock.sequence,
{
}

} // verus!
