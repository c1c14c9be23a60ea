//! Laws of what changes of caches, settings, sessions, traces and transactions
//! leave behind.
use crate::address::Address;
use crate::cache_governance::{
    endorse_refusal, execute_refusal, policies_in, CachePolicySet,
};
use crate::contract::cache::{
    cache_capabilities_refusal, cache_compacted, cache_invalidated, capabilities_are_dead,
    capabilities_cached, capabilities_refreshed, capabilities_ttl, capacity_refusal,
    endorsement_refusal, execution_refusal, force_refusal, metadata_cached_with_grace,
    metadata_forced, metadata_is_dead, metadata_refreshed, metadata_state_in, metadata_ttl,
    only_dead_entries_go, proposal_endorsed, proposal_executed, proposal_opened, proposal_refusal,
    refresh_capabilities_refusal, refresh_completed, refresh_refusal,
};
use crate::contract::events::Event;
use crate::contract::ledger::{
    admin_refusal, attestor_refusal, duty_refusal, ContractError, Duty, Ledger, Temporary,
};
use crate::contract::sessions::{
    auto_prune_set, open_refusal, operations_of, retention_in, retention_refusal, retention_set,
    session_closed, session_created,
};
use crate::contract::settings::{
    cache_config_in, cache_config_set, cache_policies_refusal, cache_policies_set,
    cache_settings_refusal, capacity_in, capacity_set, compliance_policy_in,
    compliance_policy_set,
};
use crate::contract::tomls::{toml_cached, toml_refreshed, toml_refusal};
use crate::contract::tracing::{context_created, context_refusal, span_propagated};
use crate::contract::transactions::{
    budget_refusal, budget_report, budget_set, eviction_set, evictions_in, evicts_first,
};
use crate::contract::types::{
    AnchorMetadata, CacheConfig, CapabilitiesCache, CapacityConfig, CompliancePolicy,
    MetadataCache, MetadataCacheState, RefreshStatus, RequestContext, RequestId, StellarToml,
};
use crate::errors::ErrorCode;
use vstd::prelude::*;

verus! {

/// Metadata that was cached with a grace period, forced or refreshed is on record
/// as it was given and fresh; it lives as long as its policy allows, and a grace
/// period that was asked for is the one it gets.
pub proof fn metadata_is_cached_as_given(
    before: Ledger,
    after: Ledger,
    anchor: Address,
    metadata: AnchorMetadata,
    ttl: u64,
    grace: u64,
)
    requires
        0 <= metadata_ttl(before, ttl) <= u64::MAX,
    ensures
        metadata_cached_with_grace(before, after, anchor, metadata, ttl, grace) || metadata_forced(
            before,
            after,
            anchor,
            metadata,
            ttl,
            grace,
        ) ==> {
            let e = after.cache.metadata@[anchor].value;
            &&& metadata_state_in(after, anchor) == MetadataCacheState::Fresh
            &&& e.metadata == metadata
            &&& e.cached_at == before.clock.timestamp
            &&& e.ttl_seconds == metadata_ttl(before, ttl)
            &&& grace > 0 ==> e.stale_ttl_seconds == grace
            &&& grace == 0 ==> e.stale_ttl_seconds == cache_config_in(before).swr_ttl_seconds
        },
        metadata_refreshed(before, after, anchor, metadata, ttl) ==> {
            let e = after.cache.metadata@[anchor].value;
            let d = after.cache.refreshes@[(anchor, "metadata"@)];
            &&& metadata_state_in(after, anchor) == MetadataCacheState::Fresh
            &&& e.metadata == metadata
            &&& e.cached_at == before.clock.timestamp
            &&& e.ttl_seconds == metadata_ttl(before, ttl)
            &&& after.cache.refreshes@.contains_key((anchor, "metadata"@))
            &&& d.status == RefreshStatus::Success
            &&& d.attempted_at == before.clock.timestamp
        },
{
}

/// Cached metadata is replaced at once exactly under the duty for it, where the
/// policy allows it and there is room; a refresh takes metadata of the anchor
/// instead.
pub proof fn replacements_are_checked(env: Ledger, anchor: Address, metadata: AnchorMetadata)
    ensures
        ({
            let duty = duty_refusal(env, Duty::CacheEntries);
            let room = env.cache.metadata@.contains_key(anchor) || capacity_refusal(
                env,
                false,
            ) is None;
            let may = policies_in(env).metadata.allow_forced_invalidation;
            let sound = metadata.anchor == anchor && metadata.uptime_percentage <= 10_000;
            &&& force_refusal(env, anchor) is None <==> duty is None && may && room
            &&& refresh_refusal(env, anchor, metadata) is None <==> duty is None && sound && room
            &&& duty is Some ==> force_refusal(env, anchor) == duty && refresh_refusal(
                env,
                anchor,
                metadata,
            ) == duty
            &&& duty is None && !may ==> force_refusal(env, anchor) == Some(
                ContractError::Code(ErrorCode::ValidationError),
            )
            &&& duty is None && !sound ==> refresh_refusal(env, anchor, metadata) == Some(
                ContractError::Code(ErrorCode::ValidationError),
            )
            &&& duty is None && may && !room ==> force_refusal(env, anchor) == Some(
                ContractError::Code(ErrorCode::CacheCapacityExceeded),
            )
        }),
{
}

/// A completed refresh leaves the same metadata over a fresh entry as it is, and
/// otherwise starts the life of the entry anew with the lifetimes asked for.
pub proof fn refreshes_start_a_new_life(
    before: Ledger,
    after: Ledger,
    anchor: Address,
    metadata: AnchorMetadata,
    ttl: u64,
    grace: u64,
)
    requires
        refresh_completed(before, after, anchor, metadata, ttl, grace),
    ensures
        after.cache.metadata@[anchor].value.metadata == metadata,
        metadata_state_in(after, anchor) == MetadataCacheState::Fresh,
        metadata_state_in(before, anchor) == MetadataCacheState::Fresh
            && before.cache.metadata@[anchor].value.metadata == metadata ==> after == before,
        metadata_state_in(before, anchor) != MetadataCacheState::Fresh
            || before.cache.metadata@[anchor].value.metadata != metadata ==> {
            let e = after.cache.metadata@[anchor].value;
            &&& e.cached_at == before.clock.timestamp
            &&& e.ttl_seconds == ttl
            &&& e.stale_ttl_seconds == grace
            &&& !e.needs_refresh
        },
{
}

/// Capabilities are cached under the duty for it where there is room, and are on
/// record as they were given; a refresh is noted. Metadata stays.
pub proof fn capabilities_are_cached_as_given(
    before: Ledger,
    after: Ledger,
    anchor: Address,
    url: String,
    capabilities: String,
    ttl: u64,
    other: Address,
)
    requires
        0 <= capabilities_ttl(before, ttl) <= u64::MAX,
        before.cache.count < u64::MAX,
    ensures
        ({
            let duty = duty_refusal(before, Duty::CacheEntries);
            let room = before.cache.capabilities@.contains_key(anchor) || capacity_refusal(
                before,
                false,
            ) is None;
            &&& cache_capabilities_refusal(before, anchor) is None <==> duty is None && room
            &&& refresh_capabilities_refusal(before, anchor) == cache_capabilities_refusal(
                before,
                anchor,
            )
        }),
        capabilities_cached(before, after, anchor, url, capabilities, ttl)
            || capabilities_refreshed(before, after, anchor, url, capabilities, ttl) ==> {
            let e = after.cache.capabilities@[anchor].value;
            &&& after.cache.capabilities@.contains_key(anchor)
            &&& e.toml_url == url
            &&& e.capabilities == capabilities
            &&& e.cached_at == before.clock.timestamp
            &&& e.ttl_seconds == capabilities_ttl(before, ttl)
            &&& after.cache.metadata == before.cache.metadata
            &&& before.cache.capabilities@.contains_key(anchor) ==> after.cache.count
                == before.cache.count
            &&& !before.cache.capabilities@.contains_key(anchor) ==> after.cache.count
                == before.cache.count + 1
            &&& other != anchor ==> after.cache.capabilities@.contains_key(other)
                == before.cache.capabilities@.contains_key(other)
        },
        capabilities_refreshed(before, after, anchor, url, capabilities, ttl) ==> {
            let d = after.cache.refreshes@[(anchor, "capabilities"@)];
            &&& after.cache.refreshes@.contains_key((anchor, "capabilities"@))
            &&& d.status == RefreshStatus::Success
            &&& d.attempted_at == before.clock.timestamp
        },
{
}

/// A sweep drops the entries of the listed anchors whose lifetime is over, and no
/// other; it is announced exactly where it dropped something.
pub proof fn sweeps_drop_dead_entries(
    before: Ledger,
    after: Ledger,
    anchors: &Vec<Address>,
    freed: u64,
    a: Address,
)
    requires
        cache_compacted(before, after, anchors, freed),
        before.clock.timestamp < u64::MAX,
    ensures
        ({
            let e = before.cache.metadata@[a].value;
            let stored = before.cache.metadata@.contains_key(a);
            let over = e.cached_at + e.ttl_seconds <= before.clock.timestamp;
            after.cache.metadata@.contains_key(a) <==> stored && !(anchors@.contains(a) && over)
        }),
        ({
            let e = before.cache.capabilities@[a].value;
            let stored = before.cache.capabilities@.contains_key(a);
            let over = e.cached_at + e.ttl_seconds <= before.clock.timestamp;
            after.cache.capabilities@.contains_key(a) <==> stored && !(anchors@.contains(a) && over)
        }),
        after.cache.metadata@.contains_key(a) ==> after.cache.metadata@[a]
            == before.cache.metadata@[a],
        freed == 0 ==> after.events@ == before.events@ && after.cache.count == before.cache.count,
        freed > 0 ==> after.events@ == before.events@.push(Event::CacheCompacted(freed)),
        0 < freed <= before.cache.count ==> after.cache.count == before.cache.count - freed,
        after.cache.tomls == before.cache.tomls,
{
    let now = before.clock.timestamp;
    let old_metadata = |e: Temporary<MetadataCache>| metadata_is_dead(e, now);
    let old_capabilities = |e: Temporary<CapabilitiesCache>| capabilities_are_dead(e, now);
    only_dead_entries_go(before.cache.metadata@, old_metadata, anchors@, a);
    only_dead_entries_go(before.cache.capabilities@, old_capabilities, anchors@, a);
}

/// An anchor that was cleared by the admin has nothing cached; the answer tells
/// whether it had, and then the clearing is logged.
pub proof fn admins_clear_anchors(before: Ledger, after: Ledger, anchor: Address, had: bool)
    requires
        cache_invalidated(before, after, anchor, had),
    ensures
        !after.cache.metadata@.contains_key(anchor),
        !after.cache.capabilities@.contains_key(anchor),
        had <==> before.cache.metadata@.contains_key(anchor)
            || before.cache.capabilities@.contains_key(anchor),
        had ==> after.admin_log@.len() == before.admin_log@.len() + 1
            && after.admin_log@.last().actor == before.access.admin->0,
        !had ==> after.admin_log@ == before.admin_log@ && after.events@ == before.events@,
{
}

/// Proposals are opened and endorsed by attestors that have signed the call; a new
/// one has the next number and can be endorsed at once. An executed one clears its
/// anchor, and can be neither endorsed nor executed again.
pub proof fn proposals_clear_their_anchor(
    before: Ledger,
    after: Ledger,
    caller: Address,
    anchor: Address,
    id: u64,
)
    ensures
        ({
            let signed = before.auth.all || before.auth.signers@.contains(caller);
            let attestor = attestor_refusal(before, caller) is None;
            &&& proposal_refusal(before, caller) is None <==> signed && attestor
                && before.cache.proposal_count < u64::MAX
            &&& endorsement_refusal(before, caller, id) is None <==> signed && attestor
                && endorse_refusal(before, id) is None
            &&& execution_refusal(before, id) is None <==> execute_refusal(before, id) is None
            &&& !signed ==> proposal_refusal(before, caller) == Some(
                ContractError::AuthRequired(caller),
            )
        }),
        proposal_opened(before, after, caller, anchor, id) ==> {
            let p = after.cache.proposals@[id];
            &&& id == before.cache.proposal_count
            &&& after.cache.proposals@.contains_key(id)
            &&& p.anchor == anchor
            &&& p.proposer == caller
            &&& p.endorsements@.contains(caller)
            &&& !p.executed
            &&& id < u64::MAX ==> after.cache.proposal_count == id + 1
        },
        proposal_endorsed(before, after, caller, id) ==> {
            let (p, q) = (before.cache.proposals@[id], after.cache.proposals@[id]);
            &&& q.endorsements@.contains(caller)
            &&& q.anchor == p.anchor
            &&& q.executed == p.executed
            &&& after.cache.metadata == before.cache.metadata
        },
        proposal_executed(before, after, id) ==> {
            let a = before.cache.proposals@[id].anchor;
            &&& !after.cache.metadata@.contains_key(a)
            &&& !after.cache.capabilities@.contains_key(a)
            &&& after.cache.proposals@[id].executed
            &&& endorse_refusal(after, id) is Some
            &&& execute_refusal(after, id) is Some
        },
{
    if proposal_opened(before, after, caller, anchor, id) {
        assert(after.cache.proposals@[id].endorsements@[0] == caller);
    }
    if proposal_endorsed(before, after, caller, id) {
        let p = before.cache.proposals@[id];
        if !p.endorsements@.contains(caller) {
            assert(after.cache.proposals@[id].endorsements@[p.endorsements@.len() as int]
                == caller);
        }
    }
}

/// Settings read back as they were set, each without touching the others.
pub proof fn settings_read_back(
    before: Ledger,
    after: Ledger,
    compliance: CompliancePolicy,
    cache: CacheConfig,
    policies: CachePolicySet,
    capacity: CapacityConfig,
)
    ensures
        compliance_policy_set(before, after, compliance) ==> {
            &&& compliance_policy_in(after) == compliance
            &&& cache_config_in(after) == cache_config_in(before)
            &&& capacity_in(after) == capacity_in(before)
        },
        cache_config_set(before, after, cache) ==> {
            &&& cache_config_in(after) == cache
            &&& compliance_policy_in(after) == compliance_policy_in(before)
            &&& capacity_in(after) == capacity_in(before)
            &&& after.admin_log@.len() == before.admin_log@.len() + 1
        },
        cache_policies_set(before, after, policies) ==> {
            &&& policies_in(after) == policies
            &&& cache_config_in(after) == cache_config_in(before)
        },
        capacity_set(before, after, capacity) ==> {
            &&& capacity_in(after) == capacity
            &&& cache_config_in(after) == cache_config_in(before)
            &&& compliance_policy_in(after) == compliance_policy_in(before)
        },
        cache_settings_refusal(before, cache) is None <==> duty_refusal(
            before,
            Duty::CacheSettings,
        ) is None && cache.metadata_ttl_seconds > 0 && cache.capabilities_ttl_seconds > 0
            && cache.swr_ttl_seconds > 0,
        cache_policies_refusal(before, policies) is None <==> admin_refusal(before) is None
            && crate::cache_governance::set_fault(policies) is None,
{
}

/// A new session has the next number and its initiator, is open, and lives for an
/// hour; a closed one takes no operation. Other sessions stay.
pub proof fn sessions_open_and_close(
    before: Ledger,
    after: Ledger,
    initiator: Address,
    id: u64,
    other: u64,
)
    ensures
        session_created(before, after, initiator, id) && operations_of(before, id) == 0
            && before.clock.timestamp < u64::MAX - 86_400 ==> {
            let s = after.sessions.records@[id];
            &&& id == before.sessions.count
            &&& s.session_id == id
            &&& s.initiator == initiator
            &&& s.created_at == before.clock.timestamp
            &&& s.operation_count == 0
            &&& !s.closed
            &&& s.state == 0
            &&& s.session_ttl_seconds == 3_600
            &&& open_refusal(after, id) is None
            &&& after.events@.len() == before.events@.len() + 1
            &&& after.events@.last() is SessionCreated
            &&& after.events@.last()->SessionCreated_0.session_id == id
            &&& after.events@.last()->SessionCreated_0.initiator == initiator
            &&& id < u64::MAX ==> after.sessions.count == id + 1
        },
        session_closed(before, after, id) ==> {
            let (s, t) = (before.sessions.records@[id], after.sessions.records@[id]);
            &&& t.closed
            &&& t.state == 3
            &&& t.initiator == s.initiator
            &&& t.created_at == s.created_at
            &&& open_refusal(after, id) is Some
            &&& after.events@.len() == before.events@.len() + 1
            &&& after.events@.last() is SessionClosed
        },
        other != id && (session_created(before, after, initiator, id) || session_closed(
            before,
            after,
            id,
        )) ==> after.sessions.records@.contains_key(other) == before.sessions.records@.contains_key(
            other,
        ) && after.sessions.records@[other] == before.sessions.records@[other],
{
}

/// How long audit entries are kept reads back as it was set, and has a bound.
pub proof fn retention_reads_back(before: Ledger, after: Ledger, days: u64, n: u32)
    ensures
        retention_refusal(before, days) is None <==> admin_refusal(before) is None && days
            <= 3650,
        retention_set(before, after, days) ==> retention_in(after) == days && after.sessions
            == before.sessions,
        auto_prune_set(before, after, n) ==> after.config.auto_prune == Some(n)
            && after.config.audit_retention == before.config.audit_retention,
{
}

/// What an anchor publishes is cached with its source and reads back at once; a
/// refresh is noted with whether there was something before.
pub proof fn publications_are_cached_as_given(
    before: Ledger,
    after: Ledger,
    anchor: Address,
    toml: StellarToml,
    ttl: u64,
    source: String,
    other: Address,
)
    requires
        1 <= capabilities_ttl(before, ttl) <= u64::MAX,
    ensures
        toml_cached(before, after, anchor, toml, ttl, source) || toml_refreshed(
            before,
            after,
            anchor,
            toml,
            ttl,
            source,
        ) ==> {
            let e = after.cache.tomls@[anchor].value;
            &&& toml_refusal(after, anchor) is None
            &&& e.toml == toml
            &&& e.source_uri == source
            &&& e.cached_at == before.clock.timestamp
            &&& e.last_refreshed_at == before.clock.timestamp
            &&& e.ttl_seconds == capabilities_ttl(before, ttl)
            &&& other != anchor ==> after.cache.tomls@.contains_key(other)
                == before.cache.tomls@.contains_key(other) && after.cache.tomls@[other]
                == before.cache.tomls@[other]
            &&& after.cache.metadata == before.cache.metadata
        },
        toml_refreshed(before, after, anchor, toml, ttl, source) ==> {
            let d = after.cache.refreshes@[(anchor, "anchor_info"@)];
            &&& after.cache.refreshes@.contains_key((anchor, "anchor_info"@))
            &&& d.had_cached_entry == before.cache.tomls@.contains_key(anchor)
            &&& d.attempted_at == before.clock.timestamp
            &&& d.status == RefreshStatus::Success
        },
{
}

/// A span that was put under a root has the next index of the root, names its
/// parent and its actor, and the index of the root goes up by one.
pub proof fn propagated_spans_are_numbered(
    before: Ledger,
    after: Ledger,
    parent: &RequestId,
    child: &RequestId,
    operation: String,
    actor: Address,
)
    requires
        before.tracing.roots@.contains_key(parent.id@),
        before.tracing.roots@[parent.id@].next_span_index < u32::MAX,
        span_propagated(before, after, parent, child, operation, actor),
    ensures
        ({
            let n = before.tracing.roots@[parent.id@].next_span_index;
            let s = after.tracing.spans@[child.id@];
            &&& after.tracing.spans@.contains_key(child.id@)
            &&& s.parent_request_id_bytes@ == parent.id@
            &&& s.span_index == n
            &&& s.operation@ == operation@
            &&& s.actor == actor
            &&& s.started_at == before.clock.timestamp
            &&& after.tracing.roots@[parent.id@].next_span_index == n + 1
            &&& after.tracing.children@.contains_key((parent.id@, n))
            &&& after.tracing.children@[(parent.id@, n)]@ == child.id@
        }),
        after.tracing.requests == before.tracing.requests,
{
    assert(after.tracing.spans@[child@.id]@.request_id == child@);
}

/// A context is made for a request with an id and a time, and starts empty.
pub proof fn contexts_start_empty(
    before: Ledger,
    after: Ledger,
    root: &RequestId,
    out: RequestContext,
)
    ensures
        ({
            let r = context_refusal(before, root);
            &&& r is None <==> root.id@.len() > 0 && root.created_at > 0
            &&& root.id@.len() == 0 ==> r == Some(ContractError::Code(ErrorCode::ValidationError))
            &&& root.id@.len() > 0 && root.created_at == 0 ==> r == Some(
                ContractError::Code(ErrorCode::InvalidTimestamp),
            )
        }),
        context_created(before, after, root, out) ==> {
            &&& after.tracing.requests@.contains_key(root.id@)
            &&& out@.operations.len() == 0
            &&& out@.root == root@
            &&& out@.created_at == before.clock.timestamp
            &&& after.tracing.requests@[root.id@]@ == out@
            &&& after.tracing.spans == before.tracing.spans
        },
{
}

/// Eviction goes on and off and by as many as set; the sizes of storage pressure
/// are taken exactly where the first is positive and below the second, and the
/// report goes by them.
pub proof fn pressure_is_configured(
    before: Ledger,
    after: Ledger,
    enabled: bool,
    max: u32,
    warning: u64,
    critical: u64,
    n: int,
)
    ensures
        eviction_set(before, after, enabled, max) ==> {
            &&& evictions_in(after) == max
            &&& !enabled ==> !evicts_first(after)
            &&& after.transactions == before.transactions
        },
        budget_refusal(before, warning, critical) is None <==> admin_refusal(before) is None && 0
            < warning < critical,
        budget_set(before, after, warning, critical) ==> {
            let r = budget_report(after, n);
            &&& r.warning_bytes == warning
            &&& r.critical_bytes == critical
            &&& after.config.eviction_enabled == before.config.eviction_enabled
        },
{
}

} // verus!
