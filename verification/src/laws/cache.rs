//! Laws of the caches: how long entries live, what they hold, and how proposals to
//! clear them are decided.
use crate::address::Address;
use crate::cache_governance::{
    config_fault, config_in, endorse_refusal, execute_refusal, invalidation_fault, is_endorsed,
    is_opened, policies_in, policy_fault, proposal_expired, reports, set_fault, CacheEntryType,
    CacheGovernanceConfig, CacheInvalidationProposal, CachePolicy, CachePolicySet, ProposalRefusal,
};
use crate::contract::cache::{
    cache_metadata_refusal, capabilities_are_dead, capabilities_ttl, capacity_refusal, cleared,
    count_after, metadata_entry, metadata_is_dead, metadata_refusal, metadata_state_in,
    metadata_ttl, metadata_written, refresh_noted, slots_of, swr_state, temporary_ttl,
};
use crate::contract::events::Event;
use crate::contract::ledger::{duty_refusal, ContractError, Duty, Ledger, Temporary};
use crate::contract::settings::{
    cache_config_in, cache_config_refusal, capacity_in, chosen_ttl, compliance_policy_in,
};
use crate::contract::types::{
    AnchorMetadata, CacheConfig, CapabilitiesCache, MetadataCache, MetadataCacheState,
    RefreshDiagnostic, RefreshStatus,
};
use crate::errors::{AnchorKitError, ErrorCode};
use vstd::prelude::*;

verus! {

/// An entry is fresh up to and with the end of its lifetime, stale up to and with
/// the end of the grace period, and expired from then on. Only an entry that is not
/// stored is missing.
pub proof fn entries_age(env: Ledger, anchor: Address)
    ensures
        ({
            let stored = env.cache.metadata@.contains_key(anchor);
            let e = env.cache.metadata@[anchor].value;
            let now = env.clock.timestamp;
            let state = metadata_state_in(env, anchor);
            &&& state == MetadataCacheState::Missing <==> !stored
            &&& state == MetadataCacheState::Fresh <==> stored && now <= e.cached_at + e.ttl_seconds
            &&& stored && now <= e.cached_at ==> state == MetadataCacheState::Fresh
            &&& state == MetadataCacheState::Stale <==> stored && e.cached_at + e.ttl_seconds < now
                && now - e.cached_at <= e.ttl_seconds + e.stale_ttl_seconds
            &&& state == MetadataCacheState::Expired <==> stored && now - e.cached_at
                > e.ttl_seconds + e.stale_ttl_seconds
        }),
{
}

/// An entry gets older, never younger.
pub proof fn entries_never_get_younger(entry: MetadataCache, now: u64, later: u64)
    requires
        now <= later,
    ensures
        swr_state(entry, later) == MetadataCacheState::Fresh ==> swr_state(entry, now)
            == MetadataCacheState::Fresh,
        swr_state(entry, now) == MetadataCacheState::Expired ==> swr_state(entry, later)
            == MetadataCacheState::Expired,
        swr_state(entry, now) != MetadataCacheState::Missing,
{
}

/// What was cached is on record as it was given, dated now, and is fresh; nothing
/// else is touched. A new entry is counted, a replaced one is not counted again.
pub proof fn cached_entries_are_fresh(
    before: Ledger,
    after: Ledger,
    anchor: Address,
    metadata: AnchorMetadata,
    ttl: u64,
    stale: u64,
    lifetime: u64,
    other: Address,
)
    requires
        before.cache.count < u64::MAX,
        metadata_written(
            before,
            after,
            anchor,
            metadata_entry(metadata, before.clock.timestamp, ttl as int, stale),
            lifetime,
            count_after(before, before.cache.metadata@.contains_key(anchor)),
        ),
    ensures
        after.cache.metadata@.contains_key(anchor),
        after.cache.metadata@[anchor].value.metadata == metadata,
        after.cache.metadata@[anchor].value.cached_at == before.clock.timestamp,
        after.cache.metadata@[anchor].value.ttl_seconds == ttl,
        after.cache.metadata@[anchor].value.stale_ttl_seconds == stale,
        !after.cache.metadata@[anchor].value.needs_refresh,
        metadata_state_in(after, anchor) == MetadataCacheState::Fresh,
        before.cache.metadata@.contains_key(anchor) ==> after.cache.count == before.cache.count,
        !before.cache.metadata@.contains_key(anchor) ==> after.cache.count == before.cache.count
            + 1,
        other != anchor ==> after.cache.metadata@.contains_key(other)
            == before.cache.metadata@.contains_key(other) && after.cache.metadata@[other]
            == before.cache.metadata@[other],
        after.cache.capabilities == before.cache.capabilities,
{
}

/// A new entry is refused exactly where the caches hold as many as they may. An
/// entry that is there already may always be replaced. Unless set otherwise, there
/// is room for ten thousand entries.
pub proof fn full_caches_take_no_new_entry(env: Ledger, present: bool, anchor: Address)
    ensures
        capacity_refusal(env, true) is None,
        capacity_refusal(env, false) is None <==> env.cache.count < (match env.config.capacity {
            Some(c) => c.max_cache_entries as int,
            None => 10_000,
        }),
        capacity_refusal(env, present) is Some ==> capacity_refusal(env, present) == Some(
            ContractError::Code(ErrorCode::CacheCapacityExceeded),
        ),
        ({
            let free = duty_refusal(env, Duty::CacheEntries) is None;
            &&& cache_metadata_refusal(env, anchor) is None <==> free && (
            env.cache.metadata@.contains_key(anchor) || capacity_refusal(env, false) is None)
            &&& !free ==> cache_metadata_refusal(env, anchor) == duty_refusal(
                env,
                Duty::CacheEntries,
            )
        }),
        env.config.capacity is None ==> capacity_in(env).max_attestors == 1000,
        env.config.capacity is Some ==> capacity_in(env) == env.config.capacity->0,
{
}

/// Unless set otherwise metadata is cached for an hour, capabilities for six hours,
/// and the grace period is five minutes.
pub proof fn lifetimes_have_defaults(env: Ledger, asked: u64, configured: u64)
    ensures
        env.config.cache is None ==> {
            let c = cache_config_in(env);
            &&& c.metadata_ttl_seconds == 3_600
            &&& c.capabilities_ttl_seconds == 21_600
            &&& c.swr_ttl_seconds == 300
        },
        env.config.cache is Some ==> cache_config_in(env) == env.config.cache->0,
        asked > 0 ==> chosen_ttl(asked, configured) == asked,
        chosen_ttl(0, configured) == configured,
        env.config.compliance is None ==> compliance_policy_in(env).minimum_score is None,
        env.config.compliance is Some ==> compliance_policy_in(env) == env.config.compliance->0,
{
}

/// Settings are taken exactly where no lifetime is zero.
pub proof fn settings_name_lifetimes(c: CacheConfig)
    ensures
        cache_config_refusal(c) is None <==> c.metadata_ttl_seconds > 0
            && c.capabilities_ttl_seconds > 0 && c.swr_ttl_seconds > 0,
        cache_config_refusal(c) is Some ==> cache_config_refusal(c) == Some(
            ContractError::Code(ErrorCode::ValidationError),
        ),
{
}

/// A lifetime within the range of its policy is kept; one below becomes the
/// smallest, one above the largest; where none is asked for the middle of the range
/// is taken.
pub proof fn lifetimes_keep_to_the_policy(p: CachePolicy, asked: u64)
    requires
        p.min_ttl_seconds < p.max_ttl_seconds,
    ensures
        p.min_ttl_seconds <= asked <= p.max_ttl_seconds && asked > 0 ==> p.clamped(asked) == asked,
        0 < asked < p.min_ttl_seconds ==> p.clamped(asked) == p.min_ttl_seconds,
        asked > p.max_ttl_seconds ==> p.clamped(asked) == p.max_ttl_seconds,
        p.clamped(0) - p.min_ttl_seconds <= p.max_ttl_seconds - p.clamped(0),
        p.max_ttl_seconds - p.clamped(0) <= p.clamped(0) - p.min_ttl_seconds + 1,
{
}

/// Where no policies were set, metadata lives for a minute to a day and
/// capabilities for five minutes to a week, each as long as asked for within that.
pub proof fn default_policies_bound_lifetimes(env: Ledger, asked: u64)
    requires
        env.cache.policies is None,
        asked > 0,
    ensures
        60 <= metadata_ttl(env, asked) <= 86_400,
        60 <= asked <= 86_400 ==> metadata_ttl(env, asked) == asked,
        300 <= capabilities_ttl(env, asked) <= 604_800,
        300 <= asked <= 604_800 ==> capabilities_ttl(env, asked) == asked,
        env.config.cache is None ==> metadata_ttl(env, 0) == 3_600 && capabilities_ttl(env, 0)
            == 21_600,
{
}

/// Each kind of entry goes by its own policy.
pub proof fn policies_go_by_kind(s: CachePolicySet, env: Ledger)
    ensures
        s.of_type(CacheEntryType::Metadata) == s.metadata,
        s.of_type(CacheEntryType::Capabilities) == s.capabilities,
        s.of_type(CacheEntryType::Other) == s.other,
        env.cache.policies is Some ==> policies_in(env) == env.cache.policies->0,
        env.cache.policies is None ==> {
            let d = policies_in(env);
            &&& d.metadata.min_ttl_seconds == 60 && d.metadata.max_ttl_seconds == 86_400
            &&& d.metadata.refresh_threshold_pct == 80 && d.metadata.allow_forced_invalidation
            &&& d.capabilities.min_ttl_seconds == 300 && d.capabilities.max_ttl_seconds == 604_800
            &&& d.capabilities.refresh_threshold_pct == 75
            &&& d.capabilities.allow_forced_invalidation
            &&& d.other.min_ttl_seconds == 30 && d.other.max_ttl_seconds == 43_200
            &&& d.other.refresh_threshold_pct == 70 && !d.other.allow_forced_invalidation
        },
{
}

/// A policy is taken exactly where its range is not empty and starts above zero,
/// and the threshold is a percentage from one to ninety-nine; a set exactly where
/// each of its policies is.
pub proof fn sound_policies_are_taken(p: CachePolicy, s: CachePolicySet)
    ensures
        policy_fault(p) is None <==> 0 < p.min_ttl_seconds < p.max_ttl_seconds && 1
            <= p.refresh_threshold_pct <= 99,
        set_fault(s) is None <==> policy_fault(s.metadata) is None && policy_fault(
            s.capabilities,
        ) is None && policy_fault(s.other) is None,
{
}

/// An entry is due for refresh from the given share of its lifetime on: once
/// `age * 100` has reached `ttl * threshold`, up to the rounding of a second.
pub proof fn refreshes_fall_due(p: CachePolicy, age: u64, ttl: u64)
    requires
        ttl * p.refresh_threshold_pct <= u64::MAX,
    ensures
        age >= p.refresh_age(ttl) <==> age * 100 + 100 > ttl * p.refresh_threshold_pct,
{
    let share = ttl * p.refresh_threshold_pct;
    assert(ttl * (p.refresh_threshold_pct as u64) == share);
    assert(p.refresh_age(ttl) == share / 100);
}

/// An entry may be forced out exactly where its policy allows it.
pub proof fn forcing_out_needs_leave(env: Ledger, t: CacheEntryType)
    ensures
        invalidation_fault(env, t) is None <==> policies_in(env).of_type(
            t,
        ).allow_forced_invalidation,
{
}

/// An entry is kept in the store for its lifetime in ledgers, and for fifteen at
/// least; a lifetime beyond the range of ledgers counts by its low half.
pub proof fn entries_are_kept_in_the_store(ttl: u64)
    ensures
        temporary_ttl(ttl) >= 15,
        15 <= ttl <= u32::MAX ==> temporary_ttl(ttl) == ttl,
        ttl < 15 ==> temporary_ttl(ttl) == 15,
        temporary_ttl(ttl) == 15 || temporary_ttl(ttl) == ttl % 0x1_0000_0000,
{
    assert(ttl <= u32::MAX ==> ttl % 0x1_0000_0000 == ttl);
}

/// A sweep drops an entry exactly from the end of its lifetime on. What it drops a
/// plain read no longer gives.
pub proof fn sweeps_drop_what_is_over(
    m: Temporary<MetadataCache>,
    c: Temporary<CapabilitiesCache>,
    now: u64,
)
    requires
        now < u64::MAX,
    ensures
        metadata_is_dead(m, now) <==> m.value.cached_at + m.value.ttl_seconds <= now,
        capabilities_are_dead(c, now) <==> c.value.cached_at + c.value.ttl_seconds <= now,
{
}

/// Clearing an anchor leaves none of its entries and all those of others, counts
/// what went and tells of it exactly where there was something.
pub proof fn clearings_leave_nothing(
    before: Ledger,
    after: Ledger,
    anchor: Address,
    other: Address,
)
    requires
        cleared(before, after, anchor),
    ensures
        metadata_state_in(after, anchor) == MetadataCacheState::Missing,
        !after.cache.capabilities@.contains_key(anchor),
        slots_of(after, anchor) == 0,
        ({
            let m = before.cache.metadata@.contains_key(anchor);
            let c = before.cache.capabilities@.contains_key(anchor);
            &&& slots_of(before, anchor) == 0 <==> !m && !c
            &&& slots_of(before, anchor) == 2 <==> m && c
            &&& m && c && before.cache.count >= 2 ==> after.cache.count == before.cache.count - 2
            &&& m != c && before.cache.count >= 1 ==> after.cache.count == before.cache.count - 1
            &&& !m && !c ==> after.cache.count == before.cache.count && after.events@
                == before.events@
            &&& m || c ==> after.events@ == before.events@.push(
                Event::CacheInvalidated(anchor, before.clock.timestamp),
            )
        }),
        other != anchor && before.cache.metadata@.contains_key(other)
            ==> after.cache.metadata@.contains_key(other) && after.cache.metadata@[other]
            == before.cache.metadata@[other],
        other != anchor && before.cache.capabilities@.contains_key(other)
            ==> after.cache.capabilities@.contains_key(other) && after.cache.capabilities@[other]
            == before.cache.capabilities@[other],
        after.cache.tomls == before.cache.tomls,
{
}

/// Metadata is taken for a refresh exactly where it is of the anchor and its uptime
/// is no more than the whole, in hundredths of a percent.
pub proof fn refreshed_metadata_is_of_the_anchor(anchor: Address, metadata: AnchorMetadata)
    ensures
        metadata_refusal(anchor, metadata) is None <==> metadata.anchor == anchor
            && metadata.uptime_percentage <= 10_000,
        metadata_refusal(anchor, metadata) is Some ==> metadata_refusal(anchor, metadata) == Some(
            ContractError::Code(ErrorCode::ValidationError),
        ),
{
}

/// A noted refresh has succeeded, is dated and says what it was.
pub proof fn refreshes_are_noted(
    d: RefreshDiagnostic,
    operation: Seq<char>,
    detail: Seq<char>,
    had: bool,
    now: u64,
)
    ensures
        refresh_noted(d, operation, detail, had, now) <==> d.operation@ == operation && d.status
            == RefreshStatus::Success && d.attempted_at == now && d.had_cached_entry == had
            && d.detail@ == detail,
{
}

/// A proposal starts with the endorsement of its proposer, open and under the next
/// number, and stays open for as long as configured: a day of ledgers unless set
/// otherwise.
pub proof fn proposals_start_open(
    p: CacheInvalidationProposal,
    env: Ledger,
    proposer: Address,
    anchor: Address,
    sequence: u32,
)
    requires
        is_opened(p, env, proposer, anchor),
    ensures
        p.proposal_id == env.cache.proposal_count,
        p.anchor == anchor,
        p.proposer == proposer,
        p.endorsements@.len() == 1,
        p.endorsements@[0] == proposer,
        p.created_at_ledger == env.clock.sequence,
        !p.executed,
        env.cache.governance is None ==> p.expiry_ledgers == 17_280,
        env.cache.governance is Some ==> p.expiry_ledgers
            == env.cache.governance->0.proposal_expiry_ledgers,
        proposal_expired(p, sequence) <==> sequence == u32::MAX || sequence - env.clock.sequence
            >= p.expiry_ledgers,
{
}

/// A proposal is endorsed exactly while it is open: stored, neither expired nor
/// executed. It is executed exactly while it is open and enough have endorsed it:
/// three unless set otherwise.
pub proof fn proposals_are_decided(env: Ledger, id: u64)
    ensures
        ({
            let stored = env.cache.proposals@.contains_key(id);
            let p = env.cache.proposals@[id];
            let now = env.clock.sequence;
            let over = now == u32::MAX || now >= p.created_at_ledger + p.expiry_ledgers;
            let needed = match env.cache.governance {
                Some(c) => c.quorum_threshold as int,
                None => 3,
            };
            &&& endorse_refusal(env, id) is None <==> stored && !over && !p.executed
            &&& execute_refusal(env, id) is None <==> stored && !over && !p.executed
                && p.endorsements@.len() >= needed
            &&& endorse_refusal(env, id) is Some ==> execute_refusal(env, id) == endorse_refusal(
                env,
                id,
            )
            &&& !stored ==> endorse_refusal(env, id) == Some(ProposalRefusal::Missing)
            &&& stored && over ==> endorse_refusal(env, id) == Some(ProposalRefusal::Expired)
            &&& stored && !over && p.executed ==> endorse_refusal(env, id) == Some(
                ProposalRefusal::Executed,
            )
            &&& stored && !over && !p.executed && p.endorsements@.len() < needed
                ==> execute_refusal(env, id) == Some(ProposalRefusal::NoQuorum)
        }),
{
}

/// An endorsement counts once: it adds the endorser behind the others, or changes
/// nothing where they have endorsed already. Nothing else of the proposal changes.
pub proof fn endorsements_count_once(
    p: CacheInvalidationProposal,
    q: CacheInvalidationProposal,
    endorser: Address,
)
    requires
        is_endorsed(p, q, endorser),
    ensures
        q.endorsements@.contains(endorser),
        p.endorsements@.contains(endorser) ==> q == p,
        !p.endorsements@.contains(endorser) ==> q.endorsements@.len() == p.endorsements@.len() + 1
            && q.endorsements@.last() == endorser,
        forall|i: int|
            0 <= i < p.endorsements@.len() ==> #[trigger] q.endorsements@[i] == p.endorsements@[i],
        q.proposal_id == p.proposal_id,
        q.anchor == p.anchor,
        q.proposer == p.proposer,
        q.created_at_ledger == p.created_at_ledger,
        q.expiry_ledgers == p.expiry_ledgers,
        q.executed == p.executed,
{
    if !p.endorsements@.contains(endorser) {
        assert(q.endorsements@[p.endorsements@.len() as int] == endorser);
    }
}

/// Where nothing else was set a proposal needs three endorsements. A configuration
/// is taken exactly where neither of its numbers is zero.
pub proof fn governance_is_configured(env: Ledger, c: CacheGovernanceConfig)
    ensures
        env.cache.governance is None ==> config_in(env).quorum_threshold == 3 && config_in(
            env,
        ).proposal_expiry_ledgers == 17_280,
        env.cache.governance is Some ==> config_in(env) == env.cache.governance->0,
        config_fault(c) is None <==> c.quorum_threshold > 0 && c.proposal_expiry_ledgers > 0,
{
}

/// Each refusal of a proposal has its own error.
pub proof fn proposal_refusals_have_errors(e: AnchorKitError)
    ensures
        reports(e, ProposalRefusal::Missing) ==> e.code == ErrorCode::CacheNotFound,
        reports(e, ProposalRefusal::Expired) ==> e.code == ErrorCode::StaleQuote,
        reports(e, ProposalRefusal::Executed) ==> e.code == ErrorCode::ValidationError,
        reports(e, ProposalRefusal::NoQuorum) ==> e.code == ErrorCode::ValidationError,
        reports(e, ProposalRefusal::Executed) ==> !reports(e, ProposalRefusal::NoQuorum),
{
    reveal_strlit("proposal already executed");
    reveal_strlit("quorum not reached");
    if reports(e, ProposalRefusal::Executed) && reports(e, ProposalRefusal::NoQuorum) {
        assert("proposal already executed"@.len() == "quorum not reached"@.len());
    }
}

} // verus!
