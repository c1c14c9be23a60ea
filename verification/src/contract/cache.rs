//! The caches of anchor metadata and capabilities.
use crate::address::Address;
use crate::cache_governance::{
    config_fault, config_in, endorse_refusal, execute_refusal, invalidation_fault, is_endorsed,
    is_opened, policies_in, CacheEntryType, CacheGovernanceConfig, CacheInvalidationProposal,
};
use crate::contract::events::Event;
use crate::contract::ledger::{
    admin_refusal, attestor_refusal, auth_refusal, either, follows, duty_refusal, refuse_when,
    AdminAction, AdminOutcome, AdminTarget, AnchorKitContract, CacheState, ContractError, Duty,
    Ledger, Temporary,
};
use crate::contract::settings::{cache_config_in, capacity_in, chosen_ttl};
use crate::contract::types::{
    AnchorMetadata, CapabilitiesCache, MetadataCache, MetadataCacheState, RefreshDiagnostic,
    RefreshStatus, MIN_TEMP_TTL,
};
use crate::errors::ErrorCode;
use vstd::prelude::*;

verus! {

/// The number of ledgers for which an entry that lives `ttl` seconds is kept:
/// the low half of the lifetime, and no less than the smallest allowed.
pub open spec fn temporary_ttl(ttl: u64) -> u32 {
    let low = (ttl % 0x1_0000_0000) as u32;
    if low > MIN_TEMP_TTL {
        low
    } else {
        MIN_TEMP_TTL
    }
}

/// The number of ledgers for which an entry that lives `ttl` seconds is kept.
pub fn ledger_ttl(ttl: u64) -> (n: u32)
    ensures
        n == temporary_ttl(ttl),
{
    let low: u32 = (ttl % 0x1_0000_0000) as u32;
    if low > MIN_TEMP_TTL {
        low
    } else {
        MIN_TEMP_TTL
    }
}

/// How old an entry is.
pub open spec fn age_of(cached_at: u64, now: u64) -> u64 {
    crate::arith::floored_difference(now, cached_at)
}

/// Where a metadata entry stands in its life: fresh for its lifetime, stale for
/// the grace period after it, and expired from then on.
pub open spec fn swr_state(entry: MetadataCache, now: u64) -> MetadataCacheState {
    let age = age_of(entry.cached_at, now);
    if age <= entry.ttl_seconds {
        MetadataCacheState::Fresh
    } else if age <= crate::arith::capped_sum(entry.ttl_seconds, entry.stale_ttl_seconds) {
        MetadataCacheState::Stale
    } else {
        MetadataCacheState::Expired
    }
}

/// Where the metadata entry of an anchor stands.
pub open spec fn metadata_state_in(env: Ledger, anchor: Address) -> MetadataCacheState {
    if env.cache.metadata@.contains_key(anchor) {
        swr_state(env.cache.metadata@[anchor].value, env.clock.timestamp)
    } else {
        MetadataCacheState::Missing
    }
}

/// Where an entry stands in its life.
pub fn swr_state_of(entry: &MetadataCache, now: u64) -> (s: MetadataCacheState)
    ensures
        s == swr_state(*entry, now),
{
    let age: u64 = now.saturating_sub(entry.cached_at);
    if age <= entry.ttl_seconds {
        MetadataCacheState::Fresh
    } else if age <= entry.ttl_seconds.saturating_add(entry.stale_ttl_seconds) {
        MetadataCacheState::Stale
    } else {
        MetadataCacheState::Expired
    }
}

/// The lifetime that a metadata write gets.
pub open spec fn metadata_ttl(env: Ledger, ttl_seconds: u64) -> int {
    policies_in(env).of_type(CacheEntryType::Metadata).clamped(
        chosen_ttl(ttl_seconds, cache_config_in(env).metadata_ttl_seconds),
    )
}

/// The lifetime that a capabilities write gets.
pub open spec fn capabilities_ttl(env: Ledger, ttl_seconds: u64) -> int {
    policies_in(env).of_type(CacheEntryType::Capabilities).clamped(
        chosen_ttl(ttl_seconds, cache_config_in(env).capabilities_ttl_seconds),
    )
}

/// A metadata entry as it is written.
pub open spec fn metadata_entry(
    metadata: AnchorMetadata,
    now: u64,
    ttl: int,
    stale: u64,
) -> MetadataCache {
    MetadataCache {
        metadata,
        cached_at: now,
        ttl_seconds: ttl as u64,
        stale_ttl_seconds: stale,
        needs_refresh: false,
    }
}

/// The refusal of a new entry when the caches are full.
pub open spec fn capacity_refusal(env: Ledger, present: bool) -> Option<ContractError> {
    refuse_when(
        !present && env.cache.count >= capacity_in(env).max_cache_entries,
        ErrorCode::CacheCapacityExceeded,
    )
}

/// The number of entries after a write.
pub open spec fn count_after(env: Ledger, present: bool) -> u64 {
    if present {
        env.cache.count
    } else {
        (env.cache.count + 1) as u64
    }
}

/// The metadata cache with one entry written.
pub open spec fn metadata_written(
    before: Ledger,
    after: Ledger,
    anchor: Address,
    entry: MetadataCache,
    lifetime: u64,
    count: u64,
) -> bool {
    &&& after == (Ledger {
        cache: CacheState { metadata: after.cache.metadata, count, ..before.cache },
        ..before
    })
    &&& after.cache.metadata@ == before.cache.metadata@.insert(
        anchor,
        (Temporary { value: entry, ledger_ttl: temporary_ttl(lifetime) }),
    )
}

/// The note that a cache was refreshed.
pub open spec fn refresh_noted(
    d: RefreshDiagnostic,
    operation: Seq<char>,
    detail: Seq<char>,
    had_cached_entry: bool,
    now: u64,
) -> bool {
    &&& d.operation@ == operation
    &&& d.status == RefreshStatus::Success
    &&& d.attempted_at == now
    &&& d.had_cached_entry == had_cached_entry
    &&& d.detail@ == detail
}

/// Whether an entry may be dropped: its lifetime is over, be it within its grace
/// period or not.
pub open spec fn metadata_is_dead(entry: Temporary<MetadataCache>, now: u64) -> bool {
    crate::arith::capped_sum(entry.value.cached_at, entry.value.ttl_seconds) <= now
}

/// Whether an entry may be dropped: its lifetime is over.
pub open spec fn capabilities_are_dead(entry: Temporary<CapabilitiesCache>, now: u64) -> bool {
    crate::arith::capped_sum(entry.value.cached_at, entry.value.ttl_seconds) <= now
}

/// The entries without the dead ones of the listed anchors.
pub open spec fn without_dead<V>(
    m: Map<Address, V>,
    dead: spec_fn(V) -> bool,
    anchors: Seq<Address>,
) -> Map<Address, V>
    decreases anchors.len(),
{
    if anchors.len() == 0 {
        m
    } else {
        let rest = without_dead(m, dead, anchors.drop_last());
        if rest.contains_key(anchors.last()) && dead(rest[anchors.last()]) {
            rest.remove(anchors.last())
        } else {
            rest
        }
    }
}

/// How many entries of the listed anchors are dead.
pub open spec fn dead_count<V>(
    m: Map<Address, V>,
    dead: spec_fn(V) -> bool,
    anchors: Seq<Address>,
) -> int
    decreases anchors.len(),
{
    if anchors.len() == 0 {
        0
    } else {
        let rest = without_dead(m, dead, anchors.drop_last());
        dead_count(m, dead, anchors.drop_last()) + (if rest.contains_key(anchors.last()) && dead(
            rest[anchors.last()],
        ) {
            1int
        } else {
            0int
        })
    }
}

/// Dropping dead entries drops exactly the dead entries of the listed anchors;
/// every other entry stays as it is.
pub proof fn only_dead_entries_go<V>(
    m: Map<Address, V>,
    dead: spec_fn(V) -> bool,
    anchors: Seq<Address>,
    a: Address,
)
    ensures
        without_dead(m, dead, anchors).contains_key(a) == (m.contains_key(a) && !(
        anchors.contains(a) && dead(m[a]))),
        without_dead(m, dead, anchors).contains_key(a) ==> without_dead(m, dead, anchors)[a]
            == m[a],
    decreases anchors.len(),
{
    if anchors.len() > 0 {
        only_dead_entries_go(m, dead, anchors.drop_last(), a);
        let rest = anchors.drop_last();
        assert(anchors.contains(a) == (rest.contains(a) || anchors.last() == a)) by {
            if rest.contains(a) {
                let w = choose|w: int| 0 <= w < rest.len() && rest[w] == a;
                assert(anchors[w] == a);
            }
            if anchors.contains(a) {
                let w = choose|w: int| 0 <= w < anchors.len() && anchors[w] == a;
                if w < rest.len() {
                    assert(rest[w] == a);
                }
            }
            assert(anchors[anchors.len() - 1] == anchors.last());
        }
    }
}

/// How many cache entries an anchor has.
pub open spec fn slots_of(env: Ledger, anchor: Address) -> int {
    (if env.cache.metadata@.contains_key(anchor) {
        1int
    } else {
        0int
    }) + (if env.cache.capabilities@.contains_key(anchor) {
        1int
    } else {
        0int
    })
}

/// The ledger after the entries of an anchor were cleared: where there were
/// any, they are no longer counted and the clearing is announced.
pub open spec fn cleared(before: Ledger, after: Ledger, anchor: Address) -> bool {
    &&& after == (Ledger {
        cache: CacheState {
            metadata: after.cache.metadata,
            capabilities: after.cache.capabilities,
            count: after.cache.count,
            ..before.cache
        },
        events: after.events,
        ..before
    })
    &&& after.cache.metadata@ == before.cache.metadata@.remove(anchor)
    &&& after.cache.capabilities@ == before.cache.capabilities@.remove(anchor)
    &&& after.cache.count == (if before.cache.count >= slots_of(before, anchor) {
        before.cache.count - slots_of(before, anchor)
    } else {
        0
    })
    &&& after.events@ == (if slots_of(before, anchor) > 0 {
        before.events@.push(Event::CacheInvalidated(anchor, before.clock.timestamp))
    } else {
        before.events@
    })
}

/// Why storing metadata is refused.
pub open spec fn cache_metadata_refusal(env: Ledger, anchor: Address) -> Option<ContractError> {
    either(
        duty_refusal(env, Duty::CacheEntries),
        capacity_refusal(env, env.cache.metadata@.contains_key(anchor)),
    )
}

/// The refusal of metadata that is not of the anchor or out of range.
pub open spec fn metadata_refusal(anchor: Address, metadata: AnchorMetadata) -> Option<
    ContractError,
> {
    refuse_when(
        metadata.anchor != anchor || metadata.uptime_percentage > 10_000,
        ErrorCode::ValidationError,
    )
}

/// Whether a read through `cached_at + ttl` stays in range.
pub open spec fn metadata_in_range(env: Ledger, anchor: Address) -> bool {
    env.cache.metadata@.contains_key(anchor) ==> env.cache.metadata@[anchor].value.cached_at
        + env.cache.metadata@[anchor].value.ttl_seconds <= u64::MAX
}

/// Whether a read through `cached_at + ttl` stays in range.
pub open spec fn capabilities_in_range(env: Ledger, anchor: Address) -> bool {
    env.cache.capabilities@.contains_key(anchor) ==> env.cache.capabilities@[anchor].value.cached_at
        + env.cache.capabilities@[anchor].value.ttl_seconds <= u64::MAX
}

/// The ledger after the cached metadata of an anchor was refreshed.
pub open spec fn metadata_refreshed(
    before: Ledger,
    after: Ledger,
    anchor: Address,
    new_metadata: AnchorMetadata,
    ttl_seconds: u64,
) -> bool {
    let key = (anchor, "metadata"@);
    let noted = after.cache.refreshes@[key];
    &&& metadata_written(
        before,
        (Ledger {
            cache: CacheState {
                refreshes: before.cache.refreshes,
                ..after.cache
            },
            ..after
        }),
        anchor,
        metadata_entry(
            new_metadata,
            before.clock.timestamp,
            metadata_ttl(before, ttl_seconds),
            cache_config_in(before).swr_ttl_seconds,
        ),
        metadata_ttl(before, ttl_seconds) as u64,
        count_after(before, before.cache.metadata@.contains_key(anchor)),
    )
    &&& after.cache.refreshes@ == before.cache.refreshes@.insert(key, noted)
    &&& refresh_noted(
        noted,
        "metadata"@,
        "metadata cache refreshed successfully"@,
        true,
        before.clock.timestamp,
    )
}

/// The ledger after metadata was cached with a grace period.
pub open spec fn metadata_cached_with_grace(
    before: Ledger,
    after: Ledger,
    anchor: Address,
    metadata: AnchorMetadata,
    ttl_seconds: u64,
    stale_ttl_seconds: u64,
) -> bool {
    let ttl = metadata_ttl(before, ttl_seconds);
    let stale = chosen_ttl(
        stale_ttl_seconds,
        cache_config_in(before).swr_ttl_seconds,
    );
    metadata_written(
        before,
        after,
        anchor,
        metadata_entry(metadata, before.clock.timestamp, ttl, stale),
        crate::arith::capped_sum(ttl as u64, stale),
        count_after(before, before.cache.metadata@.contains_key(anchor)),
    )
}

/// Why cached metadata cannot be replaced at once.
pub open spec fn force_refusal(env: Ledger, anchor: Address) -> Option<ContractError> {
    either(
        duty_refusal(env, Duty::CacheEntries),
        either(
            refuse_when(
                invalidation_fault(env, CacheEntryType::Metadata) is Some,
                ErrorCode::ValidationError,
            ),
            capacity_refusal(env, env.cache.metadata@.contains_key(anchor)),
        ),
    )
}

/// The ledger after cached metadata was replaced at once.
pub open spec fn metadata_forced(
    before: Ledger,
    after: Ledger,
    anchor: Address,
    metadata: AnchorMetadata,
    ttl_seconds: u64,
    stale_ttl_seconds: u64,
) -> bool {
    let ttl = metadata_ttl(before, ttl_seconds);
    let stale = chosen_ttl(
        stale_ttl_seconds,
        cache_config_in(before).swr_ttl_seconds,
    );
    metadata_written(
        before,
        after,
        anchor,
        metadata_entry(metadata, before.clock.timestamp, ttl, stale),
        crate::arith::capped_sum(ttl as u64, stale),
        count_after(before, before.cache.metadata@.contains_key(anchor)),
    )
}

/// Why a proposal cannot be opened.
pub open spec fn proposal_refusal(env: Ledger, caller: Address) -> Option<ContractError> {
    either(
        auth_refusal(env, caller),
        either(
            attestor_refusal(env, caller),
            refuse_when(
                env.cache.proposal_count == u64::MAX,
                ErrorCode::CacheCapacityExceeded,
            ),
        ),
    )
}

/// The ledger after a proposal was opened.
pub open spec fn proposal_opened(
    before: Ledger,
    after: Ledger,
    caller: Address,
    anchor: Address,
    out: u64,
) -> bool {
    let id = out;
    let opened = after.cache.proposals@[id];
    &&& id == before.cache.proposal_count
    &&& is_opened(opened, before, caller, anchor)
    &&& after.cache.proposals@ == before.cache.proposals@.insert(id, opened)
    &&& after == (Ledger {
        cache: CacheState {
            proposals: after.cache.proposals,
            proposal_count: (id + 1) as u64,
            ..before.cache
        },
        ..before
    })
}

/// Why an endorsement is refused.
pub open spec fn endorsement_refusal(
    env: Ledger,
    caller: Address,
    proposal_id: u64,
) -> Option<ContractError> {
    either(
        auth_refusal(env, caller),
        either(
            attestor_refusal(env, caller),
            refuse_when(
                endorse_refusal(env, proposal_id) is Some,
                ErrorCode::ValidationError,
            ),
        ),
    )
}

/// The ledger after a proposal was endorsed.
pub open spec fn proposal_endorsed(
    before: Ledger,
    after: Ledger,
    caller: Address,
    proposal_id: u64,
) -> bool {
    let was = before.cache.proposals@[proposal_id];
    let now = after.cache.proposals@[proposal_id];
    &&& is_endorsed(was, now, caller)
    &&& after.cache.proposals@ == before.cache.proposals@.insert(
        proposal_id,
        now,
    )
    &&& after == (Ledger {
        cache: CacheState { proposals: after.cache.proposals, ..before.cache },
        ..before
    })
}

/// Why a proposal is not executed.
pub open spec fn execution_refusal(env: Ledger, proposal_id: u64) -> Option<ContractError> {
    refuse_when(
        execute_refusal(env, proposal_id) is Some,
        ErrorCode::ValidationError,
    )
}

/// The ledger after a proposal was executed.
pub open spec fn proposal_executed(before: Ledger, after: Ledger, proposal_id: u64) -> bool {
    let was = before.cache.proposals@[proposal_id];
    &&& cleared(
        before,
        (Ledger {
            cache: CacheState {
                proposals: before.cache.proposals,
                ..after.cache
            },
            ..after
        }),
        was.anchor,
    )
    &&& after.cache.proposals@ == before.cache.proposals@.insert(
        proposal_id,
        (CacheInvalidationProposal { executed: true, ..was }),
    )
}

/// Why a refresh cannot be completed.
pub open spec fn refresh_refusal(
    env: Ledger,
    anchor: Address,
    metadata: AnchorMetadata,
) -> Option<ContractError> {
    either(
        duty_refusal(env, Duty::CacheEntries),
        either(
            metadata_refusal(anchor, metadata),
            capacity_refusal(env, env.cache.metadata@.contains_key(anchor)),
        ),
    )
}

/// The ledger after a refresh was completed.
pub open spec fn refresh_completed(
    before: Ledger,
    after: Ledger,
    anchor: Address,
    metadata: AnchorMetadata,
    ttl_seconds: u64,
    stale_ttl_seconds: u64,
) -> bool {
    if metadata_state_in(before, anchor) == MetadataCacheState::Fresh && before.cache.metadata@[anchor].value.metadata == metadata {
        after == before
    } else {
        metadata_written(
            before,
            after,
            anchor,
            metadata_entry(
                metadata,
                before.clock.timestamp,
                ttl_seconds as int,
                stale_ttl_seconds,
            ),
            crate::arith::capped_sum(ttl_seconds, stale_ttl_seconds),
            count_after(before, before.cache.metadata@.contains_key(anchor)),
        )
    }
}

/// Why capabilities are not cached.
pub open spec fn cache_capabilities_refusal(env: Ledger, anchor: Address) -> Option<
    ContractError,
> {
    either(
        duty_refusal(env, Duty::CacheEntries),
        capacity_refusal(env, env.cache.capabilities@.contains_key(anchor)),
    )
}

/// The ledger after the capabilities of an anchor were cached.
pub open spec fn capabilities_cached(
    before: Ledger,
    after: Ledger,
    anchor: Address,
    toml_url: String,
    capabilities: String,
    ttl_seconds: u64,
) -> bool {
    let ttl = capabilities_ttl(before, ttl_seconds) as u64;
    &&& after == (Ledger {
        cache: CacheState {
            capabilities: after.cache.capabilities,
            count: count_after(
                before,
                before.cache.capabilities@.contains_key(anchor),
            ),
            ..before.cache
        },
        ..before
    })
    &&& after.cache.capabilities@ == before.cache.capabilities@.insert(
        anchor,
        (Temporary {
            value: CapabilitiesCache {
                toml_url,
                capabilities,
                cached_at: before.clock.timestamp,
                ttl_seconds: ttl,
            },
            ledger_ttl: temporary_ttl(ttl),
        }),
    )
}

/// Why cached capabilities are not refreshed.
pub open spec fn refresh_capabilities_refusal(env: Ledger, anchor: Address) -> Option<
    ContractError,
> {
    either(
        duty_refusal(env, Duty::CacheEntries),
        capacity_refusal(env, env.cache.capabilities@.contains_key(anchor)),
    )
}

/// The ledger after the cached capabilities were refreshed.
pub open spec fn capabilities_refreshed(
    before: Ledger,
    after: Ledger,
    anchor: Address,
    toml_url: String,
    capabilities: String,
    ttl_seconds: u64,
) -> bool {
    let ttl = capabilities_ttl(before, ttl_seconds) as u64;
    let key = (anchor, "capabilities"@);
    let noted = after.cache.refreshes@[key];
    &&& after == (Ledger {
        cache: CacheState {
            capabilities: after.cache.capabilities,
            refreshes: after.cache.refreshes,
            count: count_after(
                before,
                before.cache.capabilities@.contains_key(anchor),
            ),
            ..before.cache
        },
        ..before
    })
    &&& after.cache.capabilities@ == before.cache.capabilities@.insert(
        anchor,
        (Temporary {
            value: CapabilitiesCache {
                toml_url,
                capabilities,
                cached_at: before.clock.timestamp,
                ttl_seconds: ttl,
            },
            ledger_ttl: temporary_ttl(ttl),
        }),
    )
    &&& after.cache.refreshes@ == before.cache.refreshes@.insert(key, noted)
    &&& refresh_noted(
        noted,
        "capabilities"@,
        "capabilities cache refreshed successfully"@,
        true,
        before.clock.timestamp,
    )
}

/// The ledger after the dead entries of the listed anchors were dropped.
pub open spec fn cache_compacted(
    before: Ledger,
    after: Ledger,
    anchors: &Vec<Address>,
    out: u64,
) -> bool {
    let now = before.clock.timestamp;
    let old_metadata = |e: Temporary<MetadataCache>| metadata_is_dead(e, now);
    let old_capabilities = |e: Temporary<CapabilitiesCache>|
        capabilities_are_dead(e, now);
    let freed = out;
    &&& freed == dead_count(before.cache.metadata@, old_metadata, anchors@)
        + dead_count(before.cache.capabilities@, old_capabilities, anchors@)
    &&& after.cache.metadata@ == without_dead(
        before.cache.metadata@,
        old_metadata,
        anchors@,
    )
    &&& after.cache.capabilities@ == without_dead(
        before.cache.capabilities@,
        old_capabilities,
        anchors@,
    )
    &&& after == (Ledger {
        cache: CacheState {
            metadata: after.cache.metadata,
            capabilities: after.cache.capabilities,
            count: crate::arith::floored_difference(before.cache.count, freed),
            ..before.cache
        },
        events: after.events,
        admin_log: after.admin_log,
        ..before
    })
    &&& after.events@ == (if freed > 0 {
        before.events@.push(Event::CacheCompacted(freed))
    } else {
        before.events@
    })
    &&& after.admin_log@ == (if freed > 0 {
        before.admin_log@.push(
            AdminAction {
                actor: before.access.admin->0,
                action: "compact_cache",
                target: AdminTarget::Label("cache"),
                before: "",
                after: AdminOutcome::Label("compacted"),
            },
        )
    } else {
        before.admin_log@
    })
}

/// The ledger after the entries of an anchor were cleared by the admin.
pub open spec fn cache_invalidated(
    before: Ledger,
    after: Ledger,
    anchor: Address,
    out: bool,
) -> bool {
    &&& out == (slots_of(before, anchor) > 0)
    &&& cleared(
        before,
        (Ledger { admin_log: before.admin_log, ..after }),
        anchor,
    )
    &&& after.admin_log@ == (if out {
        before.admin_log@.push(
            AdminAction {
                actor: before.access.admin->0,
                action: "invalidate_cache",
                target: AdminTarget::Account(anchor),
                before: "cached",
                after: AdminOutcome::Label("invalidated"),
            },
        )
    } else {
        before.admin_log@
    })
}

/// Why cached metadata cannot be read.
pub open spec fn read_metadata_refusal(env: Ledger, anchor: Address) -> Option<ContractError> {
    either(
        refuse_when(
            !env.cache.metadata@.contains_key(anchor),
            ErrorCode::CacheNotFound,
        ),
        refuse_when(
            env.cache.metadata@[anchor].value.cached_at
                + env.cache.metadata@[anchor].value.ttl_seconds <= env.clock.timestamp,
            ErrorCode::CacheExpired,
        ),
    )
}

/// Why cached capabilities cannot be read.
pub open spec fn read_capabilities_refusal(env: Ledger, anchor: Address) -> Option<ContractError> {
    either(
        refuse_when(
            !env.cache.capabilities@.contains_key(anchor),
            ErrorCode::CacheNotFound,
        ),
        refuse_when(
            env.cache.capabilities@[anchor].value.cached_at
                + env.cache.capabilities@[anchor].value.ttl_seconds
                <= env.clock.timestamp,
            ErrorCode::CacheExpired,
        ),
    )
}

/// What comes of setting how many endorsements a proposal needs.
pub open spec fn quorum_outcome(
    before: Ledger,
    after: Ledger,
    n: u32,
    out: Result<(), ContractError>,
) -> bool {
    let cfg = CacheGovernanceConfig { quorum_threshold: n, ..config_in(before) };
    after == (if out is Ok && config_fault(cfg) is None {
        Ledger {
            cache: CacheState { governance: Some(cfg), ..before.cache },
            ..before
        }
    } else {
        before
    })
}

/// What comes of setting for how long a proposal stays open.
pub open spec fn expiry_outcome(
    before: Ledger,
    after: Ledger,
    ledgers: u32,
    out: Result<(), ContractError>,
) -> bool {
    let cfg = CacheGovernanceConfig {
        proposal_expiry_ledgers: ledgers,
        ..config_in(before)
    };
    after == (if out is Ok && config_fault(cfg) is None {
        Ledger {
            cache: CacheState { governance: Some(cfg), ..before.cache },
            ..before
        }
    } else {
        before
    })
}

/// What comes of reading metadata through its grace period.
pub open spec fn grace_read(
    before: Ledger,
    after: Ledger,
    anchor: Address,
    out: Result<(AnchorMetadata, bool), ContractError>,
) -> bool {
    match metadata_state_in(before, anchor) {
        MetadataCacheState::Missing => out == Err::<(AnchorMetadata, bool), ContractError>(
            ContractError::Code(ErrorCode::CacheNotFound),
        ) && after == before,
        MetadataCacheState::Expired => out == Err::<(AnchorMetadata, bool), ContractError>(
            ContractError::Code(ErrorCode::CacheExpired),
        ) && after == before,
        MetadataCacheState::Fresh => out == Ok::<(AnchorMetadata, bool), ContractError>(
            (before.cache.metadata@[anchor].value.metadata, false),
        ) && after == before,
        MetadataCacheState::Stale => {
            let entry = before.cache.metadata@[anchor];
            &&& out == Ok::<(AnchorMetadata, bool), ContractError>(
                (entry.value.metadata, true),
            )
            &&& after == (Ledger {
                cache: CacheState {
                    metadata: after.cache.metadata,
                    ..before.cache
                },
                ..before
            })
            &&& after.cache.metadata@ == before.cache.metadata@.insert(
                anchor,
                (Temporary {
                    value: MetadataCache { needs_refresh: true, ..entry.value },
                    ledger_ttl: entry.ledger_ttl,
                }),
            )
        },
    }
}

impl AnchorKitContract {
    fn require_room(env: &Ledger, present: bool) -> (r: Result<(), ContractError>)
        ensures
            follows(r, capacity_refusal(*env, present)),
    {
        if !present {
            let config = Self::get_capacity_config(env);
            if env.cache.count >= config.max_cache_entries {
                return Err(ContractError::Code(ErrorCode::CacheCapacityExceeded));
            }
        }
        Ok(())
    }

    fn metadata_lifetime(env: &Ledger, ttl_seconds: u64) -> (t: u64)
        ensures
            t == metadata_ttl(*env, ttl_seconds),
    {
        let cfg = Self::get_cache_config(env);
        let base_ttl: u64 = Self::effective_ttl(ttl_seconds, cfg.metadata_ttl_seconds);
        let (ttl, _) = crate::cache_governance::enforce_write_policy(
            env,
            CacheEntryType::Metadata,
            base_ttl,
            0,
        );
        ttl
    }

    /// Caches metadata of an anchor. The lifetime asked for, or the configured
    /// one where none is, is moved into the range of the metadata policy.
    pub fn cache_metadata(
        env: &mut Ledger,
        anchor: Address,
        metadata: AnchorMetadata,
        ttl_seconds: u64,
    ) -> (r: Result<(), ContractError>)
        ensures
            follows(r, cache_metadata_refusal(*old(env), anchor)),
            r is Err ==> *final(env) == *old(env),
            r is Ok ==> metadata_written(
                *old(env),
                *final(env),
                anchor,
                metadata_entry(
                    metadata,
                    old(env).clock.timestamp,
                    metadata_ttl(*old(env), ttl_seconds),
                    cache_config_in(*old(env)).swr_ttl_seconds,
                ),
                metadata_ttl(*old(env), ttl_seconds) as u64,
                count_after(*old(env), old(env).cache.metadata@.contains_key(anchor)),
            ),
    {
        if let Err(e) = env.require_duty(Duty::CacheEntries) {
            return Err(e);
        }
        let entry_exists = env.cache.metadata.has(&anchor);
        if let Err(e) = Self::require_room(env, entry_exists) {
            return Err(e);
        }
        let cfg = Self::get_cache_config(env);
        let ttl: u64 = Self::metadata_lifetime(env, ttl_seconds);
        let entry = MetadataCache {
            metadata,
            cached_at: env.clock.timestamp,
            ttl_seconds: ttl,
            stale_ttl_seconds: cfg.swr_ttl_seconds,
            needs_refresh: false,
        };
        env.cache.metadata.set(anchor, Temporary { value: entry, ledger_ttl: ledger_ttl(ttl) });
        if !entry_exists {
            env.cache.count = env.cache.count + 1;
        }
        Ok(())
    }

    /// The cached metadata of an anchor, where its lifetime is not over.
    pub fn get_cached_metadata(env: &Ledger, anchor: Address) -> (r: Result<
        AnchorMetadata,
        ContractError,
    >)
        requires
            metadata_in_range(*env, anchor),
        ensures
            follows(r, read_metadata_refusal(*env, anchor)),
            r is Ok ==> r->Ok_0 == env.cache.metadata@[anchor].value.metadata,
    {
        match env.cache.metadata.get(&anchor) {
            None => Err(ContractError::Code(ErrorCode::CacheNotFound)),
            Some(entry) => {
                if entry.value.cached_at + entry.value.ttl_seconds <= env.clock.timestamp {
                    return Err(ContractError::Code(ErrorCode::CacheExpired));
                }
                Ok(entry.value.metadata)
            },
        }
    }

    pub(crate) fn record_refresh_diagnostic(
        env: &mut Ledger,
        anchor: Address,
        operation: &'static str,
        had_cached_entry: bool,
        detail: &'static str,
    )
        ensures
            ({
                let d = final(env).cache.refreshes@[(anchor, operation@)];
                &&& *final(env) == (Ledger {
                    cache: CacheState { refreshes: final(env).cache.refreshes, ..old(env).cache },
                    ..*old(env)
                })
                &&& final(env).cache.refreshes@ == old(env).cache.refreshes@.insert(
                    (anchor, operation@),
                    d,
                )
                &&& refresh_noted(d, operation@, detail@, had_cached_entry, old(env).clock.timestamp)
            }),
    {
        let diagnostic = RefreshDiagnostic {
            operation: operation.to_owned(),
            status: RefreshStatus::Success,
            attempted_at: env.clock.timestamp,
            had_cached_entry,
            detail: detail.to_owned(),
        };
        env.cache.refreshes.set((anchor, operation.to_owned()), diagnostic);
    }

    /// What was noted at the last refresh of a cache of an anchor.
    pub fn get_refresh_diagnostic(env: &Ledger, anchor: Address, operation: String) -> (r: Result<
        &RefreshDiagnostic,
        ContractError,
    >)
        ensures
            follows(
                r,
                refuse_when(
                    !env.cache.refreshes@.contains_key((anchor, operation@)),
                    ErrorCode::CacheNotFound,
                ),
            ),
            r is Ok ==> *r->Ok_0 == env.cache.refreshes@[(anchor, operation@)],
    {
        match env.cache.refreshes.get(&(anchor, operation)) {
            Some(d) => Ok(d),
            None => Err(ContractError::Code(ErrorCode::CacheNotFound)),
        }
    }

    /// Caches new metadata and notes the refresh.
    pub fn refresh_metadata_cache(
        env: &mut Ledger,
        anchor: Address,
        new_metadata: AnchorMetadata,
        ttl_seconds: u64,
    ) -> (r: Result<(), ContractError>)
        ensures
            follows(r, cache_metadata_refusal(*old(env), anchor)),
            r is Err ==> *final(env) == *old(env),
            r is Ok ==> metadata_refreshed(
                *old(env),
                *final(env),
                anchor,
                new_metadata,
                ttl_seconds,
            ),
    {
        if let Err(e) = Self::cache_metadata(env, anchor, new_metadata, ttl_seconds) {
            return Err(e);
        }
        Self::record_refresh_diagnostic(
            env,
            anchor,
            "metadata",
            true,
            "metadata cache refreshed successfully",
        );
        Ok(())
    }

    /// Caches metadata with a grace period: after its lifetime the entry is
    /// stale, after the grace period it has expired.
    pub fn cache_metadata_swr(
        env: &mut Ledger,
        anchor: Address,
        metadata: AnchorMetadata,
        ttl_seconds: u64,
        stale_ttl_seconds: u64,
    ) -> (r: Result<(), ContractError>)
        ensures
            follows(r, cache_metadata_refusal(*old(env), anchor)),
            r is Err ==> *final(env) == *old(env),
            r is Ok ==> metadata_cached_with_grace(
                *old(env),
                *final(env),
                anchor,
                metadata,
                ttl_seconds,
                stale_ttl_seconds,
            ),
    {
        if let Err(e) = env.require_duty(Duty::CacheEntries) {
            return Err(e);
        }
        let entry_exists = env.cache.metadata.has(&anchor);
        if let Err(e) = Self::require_room(env, entry_exists) {
            return Err(e);
        }
        let cfg = Self::get_cache_config(env);
        let stale: u64 = Self::effective_ttl(stale_ttl_seconds, cfg.swr_ttl_seconds);
        let ttl: u64 = Self::metadata_lifetime(env, ttl_seconds);
        let entry = MetadataCache {
            metadata,
            cached_at: env.clock.timestamp,
            ttl_seconds: ttl,
            stale_ttl_seconds: stale,
            needs_refresh: false,
        };
        let total_ttl: u64 = ttl.saturating_add(stale);
        env.cache.metadata.set(
            anchor,
            Temporary { value: entry, ledger_ttl: ledger_ttl(total_ttl) },
        );
        if !entry_exists {
            env.cache.count = env.cache.count + 1;
        }
        Ok(())
    }

    /// The cached metadata of an anchor while it is fresh or stale, and whether
    /// it is stale; a stale entry is marked for refresh.
    pub fn get_cached_metadata_swr(env: &mut Ledger, anchor: Address) -> (r: Result<
        (AnchorMetadata, bool),
        ContractError,
    >)
        ensures
            grace_read(*old(env), *final(env), anchor, r),
    {
        match Self::get_metadata_cache_state(env, anchor) {
            MetadataCacheState::Missing => Err(ContractError::Code(ErrorCode::CacheNotFound)),
            MetadataCacheState::Expired => Err(ContractError::Code(ErrorCode::CacheExpired)),
            MetadataCacheState::Fresh => match env.cache.metadata.get(&anchor) {
                Some(entry) => Ok((entry.value.metadata, false)),
                None => Err(ContractError::Code(ErrorCode::CacheNotFound)),
            },
            MetadataCacheState::Stale => match env.cache.metadata.get_mut(&anchor) {
                Some(entry) => {
                    entry.value.needs_refresh = true;
                    Ok((entry.value.metadata, true))
                },
                None => Err(ContractError::Code(ErrorCode::CacheNotFound)),
            },
        }
    }

    /// Replaces cached metadata at once, where the policy allows it. Where there
    /// was none, the caches must have room for one more entry.
    pub fn force_refresh_metadata(
        env: &mut Ledger,
        anchor: Address,
        metadata: AnchorMetadata,
        ttl_seconds: u64,
        stale_ttl_seconds: u64,
    ) -> (r: Result<(), ContractError>)
        ensures
            follows(r, force_refusal(*old(env), anchor)),
            r is Err ==> *final(env) == *old(env),
            r is Ok ==> metadata_forced(
                *old(env),
                *final(env),
                anchor,
                metadata,
                ttl_seconds,
                stale_ttl_seconds,
            ),
    {
        if let Err(e) = env.require_duty(Duty::CacheEntries) {
            return Err(e);
        }
        if crate::cache_governance::enforce_invalidation_policy(
            env,
            CacheEntryType::Metadata,
        ).is_err() {
            return Err(ContractError::Code(ErrorCode::ValidationError));
        }
        let entry_exists = env.cache.metadata.has(&anchor);
        if let Err(e) = Self::require_room(env, entry_exists) {
            return Err(e);
        }
        let cfg = Self::get_cache_config(env);
        let stale: u64 = Self::effective_ttl(stale_ttl_seconds, cfg.swr_ttl_seconds);
        let ttl: u64 = Self::metadata_lifetime(env, ttl_seconds);
        let entry = MetadataCache {
            metadata,
            cached_at: env.clock.timestamp,
            ttl_seconds: ttl,
            stale_ttl_seconds: stale,
            needs_refresh: false,
        };
        let total_ttl: u64 = ttl.saturating_add(stale);
        env.cache.metadata.set(
            anchor,
            Temporary { value: entry, ledger_ttl: ledger_ttl(total_ttl) },
        );
        if !entry_exists {
            env.cache.count = env.cache.count + 1;
        }
        Ok(())
    }

    /// Opens a proposal to clear the cache of an anchor. Only attestors may.
    pub fn propose_cache_invalidation(env: &mut Ledger, caller: Address, anchor: Address) -> (r:
        Result<u64, ContractError>)
        ensures
            follows(r, proposal_refusal(*old(env), caller)),
            r is Err ==> *final(env) == *old(env),
            r is Ok ==> proposal_opened(*old(env), *final(env), caller, anchor, r->Ok_0),
    {
        if let Err(e) = env.require_auth(&caller) {
            return Err(e);
        }
        if let Err(e) = env.check_attestor(&caller) {
            return Err(e);
        }
        match crate::cache_governance::propose(env, &caller, &anchor) {
            Ok(id) => Ok(id),
            Err(e) => Err(ContractError::Code(e.code)),
        }
    }

    /// Endorses a proposal. Only attestors may; endorsing twice changes
    /// nothing.
    pub fn endorse_cache_invalidation(env: &mut Ledger, caller: Address, proposal_id: u64) -> (r:
        Result<(), ContractError>)
        ensures
            follows(r, endorsement_refusal(*old(env), caller, proposal_id)),
            r is Err ==> *final(env) == *old(env),
            r is Ok ==> proposal_endorsed(*old(env), *final(env), caller, proposal_id),
    {
        if let Err(e) = env.require_auth(&caller) {
            return Err(e);
        }
        if let Err(e) = env.check_attestor(&caller) {
            return Err(e);
        }
        match crate::cache_governance::endorse(env, &caller, proposal_id) {
            Ok(_) => Ok(()),
            Err(_) => Err(ContractError::Code(ErrorCode::ValidationError)),
        }
    }

    /// Executes a proposal with enough endorsements: both cache entries of its
    /// anchor are cleared.
    pub fn execute_cache_invalidation(env: &mut Ledger, proposal_id: u64) -> (r: Result<
        (),
        ContractError,
    >)
        ensures
            follows(r, execution_refusal(*old(env), proposal_id)),
            r is Err ==> *final(env) == *old(env),
            r is Ok ==> proposal_executed(*old(env), *final(env), proposal_id),
    {
        match crate::cache_governance::execute(env, proposal_id) {
            Err(_) => Err(ContractError::Code(ErrorCode::ValidationError)),
            Ok(anchor) => {
                Self::invalidate_cache_internal(env, &anchor);
                Ok(())
            },
        }
    }

    /// The proposal with a given number.
    pub fn get_cache_invalidation_proposal(env: &Ledger, proposal_id: u64) -> (r: Result<
        &CacheInvalidationProposal,
        ContractError,
    >)
        ensures
            follows(
                r,
                refuse_when(
                    !env.cache.proposals@.contains_key(proposal_id),
                    ErrorCode::CacheNotFound,
                ),
            ),
            r is Ok ==> *r->Ok_0 == env.cache.proposals@[proposal_id],
    {
        match crate::cache_governance::get_proposal(env, proposal_id) {
            Some(p) => Ok(p),
            None => Err(ContractError::Code(ErrorCode::CacheNotFound)),
        }
    }

    fn change_governance(env: &mut Ledger, cfg: CacheGovernanceConfig)
        ensures
            *final(env) == (if config_fault(cfg) is None {
                Ledger {
                    cache: CacheState { governance: Some(cfg), ..old(env).cache },
                    ..*old(env)
                }
            } else {
                *old(env)
            }),
    {
        let _ = crate::cache_governance::set_config(env, cfg);
    }

    /// Sets how many endorsements a proposal needs. Zero leaves the setting as
    /// it is.
    pub fn set_cache_quorum_threshold(env: &mut Ledger, n: u32) -> (r: Result<(), ContractError>)
        ensures
            follows(r, admin_refusal(*old(env))),
            quorum_outcome(*old(env), *final(env), n, r),
    {
        if let Err(e) = env.require_admin() {
            return Err(e);
        }
        let mut cfg = crate::cache_governance::get_config(env);
        cfg.quorum_threshold = n;
        Self::change_governance(env, cfg);
        Ok(())
    }

    /// Sets for how many ledgers a proposal stays open. Zero leaves the setting
    /// as it is.
    pub fn set_cache_proposal_expiry(env: &mut Ledger, ledgers: u32) -> (r: Result<
        (),
        ContractError,
    >)
        ensures
            follows(r, admin_refusal(*old(env))),
            expiry_outcome(*old(env), *final(env), ledgers, r),
    {
        if let Err(e) = env.require_admin() {
            return Err(e);
        }
        let mut cfg = crate::cache_governance::get_config(env);
        cfg.proposal_expiry_ledgers = ledgers;
        Self::change_governance(env, cfg);
        Ok(())
    }

    /// Where the metadata entry of an anchor stands in its life.
    pub fn get_metadata_cache_state(env: &Ledger, anchor: Address) -> (s: MetadataCacheState)
        ensures
            s == metadata_state_in(*env, anchor),
    {
        match env.cache.metadata.get(&anchor) {
            Some(entry) => swr_state_of(&entry.value, env.clock.timestamp),
            None => MetadataCacheState::Missing,
        }
    }

    fn validate_metadata(anchor: &Address, metadata: &AnchorMetadata) -> (r: Result<
        (),
        ContractError,
    >)
        ensures
            follows(r, metadata_refusal(*anchor, *metadata)),
    {
        if !metadata.anchor.equals(anchor) {
            return Err(ContractError::Code(ErrorCode::ValidationError));
        }
        if metadata.uptime_percentage > 10_000 {
            return Err(ContractError::Code(ErrorCode::ValidationError));
        }
        Ok(())
    }

    /// Completes a refresh. Bad metadata is refused and the cached entry stays;
    /// the same metadata over a fresh entry changes nothing; anything else
    /// replaces the entry and starts its life anew.
    pub fn refresh_metadata_cache_swr(
        env: &mut Ledger,
        anchor: Address,
        metadata: AnchorMetadata,
        ttl_seconds: u64,
        stale_ttl_seconds: u64,
    ) -> (r: Result<(), ContractError>)
        ensures
            follows(r, refresh_refusal(*old(env), anchor, metadata)),
            r is Err ==> *final(env) == *old(env),
            r is Ok ==> refresh_completed(
                *old(env),
                *final(env),
                anchor,
                metadata,
                ttl_seconds,
                stale_ttl_seconds,
            ),
    {
        if let Err(e) = env.require_duty(Duty::CacheEntries) {
            return Err(e);
        }
        if let Err(e) = Self::validate_metadata(&anchor, &metadata) {
            return Err(e);
        }
        let entry_exists = env.cache.metadata.has(&anchor);
        if let Err(e) = Self::require_room(env, entry_exists) {
            return Err(e);
        }
        let now: u64 = env.clock.timestamp;
        if let Some(existing) = env.cache.metadata.get(&anchor) {
            let age: u64 = now.saturating_sub(existing.value.cached_at);
            if age <= existing.value.ttl_seconds && existing.value.metadata.equals(&metadata) {
                return Ok(());
            }
        }
        let entry = MetadataCache {
            metadata,
            cached_at: now,
            ttl_seconds,
            stale_ttl_seconds,
            needs_refresh: false,
        };
        let total_ttl: u64 = ttl_seconds.saturating_add(stale_ttl_seconds);
        env.cache.metadata.set(
            anchor,
            Temporary { value: entry, ledger_ttl: ledger_ttl(total_ttl) },
        );
        if !entry_exists {
            env.cache.count = env.cache.count + 1;
        }
        Ok(())
    }

    /// Caches the capabilities of an anchor. The lifetime asked for, or the
    /// configured one where none is, is moved into the range of the policy.
    pub fn cache_capabilities(
        env: &mut Ledger,
        anchor: Address,
        toml_url: String,
        capabilities: String,
        ttl_seconds: u64,
    ) -> (r: Result<(), ContractError>)
        ensures
            follows(r, cache_capabilities_refusal(*old(env), anchor)),
            r is Err ==> *final(env) == *old(env),
            r is Ok ==> capabilities_cached(
                *old(env),
                *final(env),
                anchor,
                toml_url,
                capabilities,
                ttl_seconds,
            ),
    {
        if let Err(e) = env.require_duty(Duty::CacheEntries) {
            return Err(e);
        }
        let entry_exists = env.cache.capabilities.has(&anchor);
        if let Err(e) = Self::require_room(env, entry_exists) {
            return Err(e);
        }
        let cfg = Self::get_cache_config(env);
        let base_ttl: u64 = Self::effective_ttl(ttl_seconds, cfg.capabilities_ttl_seconds);
        let (ttl, _) = crate::cache_governance::enforce_write_policy(
            env,
            CacheEntryType::Capabilities,
            base_ttl,
            0,
        );
        let entry = CapabilitiesCache {
            toml_url,
            capabilities,
            cached_at: env.clock.timestamp,
            ttl_seconds: ttl,
        };
        env.cache.capabilities.set(anchor, Temporary { value: entry, ledger_ttl: ledger_ttl(ttl) });
        if !entry_exists {
            env.cache.count = env.cache.count + 1;
        }
        Ok(())
    }

    /// The cached capabilities of an anchor, where their lifetime is not over.
    pub fn get_cached_capabilities(env: &Ledger, anchor: Address) -> (r: Result<
        &CapabilitiesCache,
        ContractError,
    >)
        requires
            capabilities_in_range(*env, anchor),
        ensures
            follows(r, read_capabilities_refusal(*env, anchor)),
            r is Ok ==> *r->Ok_0 == env.cache.capabilities@[anchor].value,
    {
        match env.cache.capabilities.get(&anchor) {
            None => Err(ContractError::Code(ErrorCode::CacheNotFound)),
            Some(entry) => {
                if entry.value.cached_at + entry.value.ttl_seconds <= env.clock.timestamp {
                    return Err(ContractError::Code(ErrorCode::CacheExpired));
                }
                Ok(&entry.value)
            },
        }
    }

    /// Caches new capabilities and notes the refresh.
    pub fn refresh_capabilities_cache(
        env: &mut Ledger,
        anchor: Address,
        toml_url: String,
        capabilities: String,
        ttl_seconds: u64,
    ) -> (r: Result<(), ContractError>)
        ensures
            follows(r, refresh_capabilities_refusal(*old(env), anchor)),
            r is Err ==> *final(env) == *old(env),
            r is Ok ==> capabilities_refreshed(
                *old(env),
                *final(env),
                anchor,
                toml_url,
                capabilities,
                ttl_seconds,
            ),
    {
        if let Err(e) = Self::cache_capabilities(env, anchor, toml_url, capabilities, ttl_seconds) {
            return Err(e);
        }
        Self::record_refresh_diagnostic(
            env,
            anchor,
            "capabilities",
            true,
            "capabilities cache refreshed successfully",
        );
        Ok(())
    }

    /// Drops the dead cache entries of the listed anchors, and counts them. A
    /// sweep that dropped something is logged and announced.
    pub fn compact_cache(env: &mut Ledger, anchors: &Vec<Address>) -> (r: Result<
        u64,
        ContractError,
    >)
        requires
            anchors@.len() <= u32::MAX,
        ensures
            follows(r, duty_refusal(*old(env), Duty::CacheEntries)),
            r is Err ==> *final(env) == *old(env),
            r is Ok ==> cache_compacted(*old(env), *final(env), anchors, r->Ok_0),
    {
        let admin = match env.require_duty(Duty::CacheEntries) {
            Err(e) => {
                return Err(e);
            },
            Ok(a) => a,
        };
        let now: u64 = env.clock.timestamp;
        let mut freed: u64 = 0;
        let mut i: usize = 0;
        let ghost old_metadata = |e: Temporary<MetadataCache>| metadata_is_dead(e, now);
        let ghost old_capabilities = |e: Temporary<CapabilitiesCache>|
            capabilities_are_dead(e, now);
        assert(anchors@.take(0) =~= Seq::<Address>::empty());
        while i < anchors.len()
            invariant
                0 <= i <= anchors@.len() <= u32::MAX,
                now == old(env).clock.timestamp,
                old_metadata == (|e: Temporary<MetadataCache>| metadata_is_dead(e, now)),
                old_capabilities == (|e: Temporary<CapabilitiesCache>|
                    capabilities_are_dead(e, now)),
                *env == (Ledger {
                    cache: CacheState {
                        metadata: env.cache.metadata,
                        capabilities: env.cache.capabilities,
                        ..old(env).cache
                    },
                    ..*old(env)
                }),
                env.cache.metadata@ == without_dead(
                    old(env).cache.metadata@,
                    old_metadata,
                    anchors@.take(i as int),
                ),
                env.cache.capabilities@ == without_dead(
                    old(env).cache.capabilities@,
                    old_capabilities,
                    anchors@.take(i as int),
                ),
                freed == dead_count(
                    old(env).cache.metadata@,
                    old_metadata,
                    anchors@.take(i as int),
                ) + dead_count(
                    old(env).cache.capabilities@,
                    old_capabilities,
                    anchors@.take(i as int),
                ),
                freed <= 2 * i,
            decreases anchors@.len() - i,
        {
            let anchor = anchors[i];
            proof {
                assert(anchors@.take(i + 1).drop_last() =~= anchors@.take(i as int));
                assert(anchors@.take(i + 1).last() == anchor);
            }
            let metadata_dead = match env.cache.metadata.get(&anchor) {
                Some(entry) => entry.value.cached_at.saturating_add(entry.value.ttl_seconds) <= now,
                None => false,
            };
            if metadata_dead {
                env.cache.metadata.remove(&anchor);
                freed = freed + 1;
            }
            let capabilities_dead = match env.cache.capabilities.get(&anchor) {
                Some(entry) => entry.value.cached_at.saturating_add(entry.value.ttl_seconds) <= now,
                None => false,
            };
            if capabilities_dead {
                env.cache.capabilities.remove(&anchor);
                freed = freed + 1;
            }
            i = i + 1;
        }
        assert(anchors@.take(i as int) =~= anchors@);
        if freed > 0 {
            let current: u64 = env.cache.count;
            env.cache.count = if current >= freed {
                current - freed
            } else {
                0
            };
            env.log_action(admin, "compact_cache", AdminTarget::Label("cache"), "", "compacted");
            env.publish(Event::CacheCompacted(freed));
        }
        Ok(freed)
    }

    /// Clears both cache entries of an anchor, and tells whether there were
    /// any. A clearing is logged and announced.
    pub fn invalidate_cache_for_anchor(env: &mut Ledger, anchor: Address) -> (r: Result<
        bool,
        ContractError,
    >)
        ensures
            follows(r, admin_refusal(*old(env))),
            r is Err ==> *final(env) == *old(env),
            r is Ok ==> cache_invalidated(*old(env), *final(env), anchor, r->Ok_0),
    {
        let admin = match env.require_admin() {
            Err(e) => {
                return Err(e);
            },
            Ok(a) => a,
        };
        let done = Self::invalidate_cache_internal(env, &anchor);
        if done {
            env.log_action(
                admin,
                "invalidate_cache",
                AdminTarget::Account(anchor),
                "cached",
                "invalidated",
            );
        }
        Ok(done)
    }

    pub(crate) fn invalidate_cache_internal(env: &mut Ledger, anchor: &Address) -> (r: bool)
        ensures
            r == (slots_of(*old(env), *anchor) > 0),
            cleared(*old(env), *final(env), *anchor),
    {
        let mut slots_freed: u64 = 0;
        if env.cache.metadata.has(anchor) {
            slots_freed = slots_freed + 1;
        }
        env.cache.metadata.remove(anchor);
        if env.cache.capabilities.has(anchor) {
            slots_freed = slots_freed + 1;
        }
        env.cache.capabilities.remove(anchor);
        if slots_freed > 0 {
            let current: u64 = env.cache.count;
            env.cache.count = if current >= slots_freed {
                current - slots_freed
            } else {
                0
            };
            let now: u64 = env.clock.timestamp;
            env.publish(Event::CacheInvalidated(*anchor, now));
        }
        slots_freed > 0
    }
}

/// Whether the count is the number of cache entries.
pub open spec fn counts_entries(c: CacheState) -> bool {
    &&& c.metadata@.dom().finite()
    &&& c.capabilities@.dom().finite()
    &&& c.count == c.metadata@.dom().len() + c.capabilities@.dom().len()
}

/// Before anything is cached, the count is the number of entries.
pub proof fn an_empty_cache_is_counted(c: CacheState)
    requires
        c.blank(),
    ensures
        counts_entries(c),
{
    assert(c.metadata@.dom() =~= Set::<Address>::empty());
    assert(c.capabilities@.dom() =~= Set::<Address>::empty());
}

/// Writing metadata keeps the count the number of entries.
pub proof fn metadata_writes_are_counted(
    before: Ledger,
    after: Ledger,
    anchor: Address,
    entry: MetadataCache,
    lifetime: u64,
)
    requires
        counts_entries(before.cache),
        before.cache.count < u64::MAX,
        metadata_written(
            before,
            after,
            anchor,
            entry,
            lifetime,
            count_after(before, before.cache.metadata@.contains_key(anchor)),
        ),
    ensures
        counts_entries(after.cache),
{
    assert(after.cache.metadata@.dom() =~= before.cache.metadata@.dom().insert(anchor));
}

/// Writing capabilities keeps the count the number of entries.
pub proof fn capabilities_writes_are_counted(
    before: Ledger,
    after: CacheState,
    anchor: Address,
    entry: Temporary<CapabilitiesCache>,
)
    requires
        counts_entries(before.cache),
        before.cache.count < u64::MAX,
        after == (CacheState {
            capabilities: after.capabilities,
            refreshes: after.refreshes,
            count: count_after(before, before.cache.capabilities@.contains_key(anchor)),
            ..before.cache
        }),
        after.capabilities@ == before.cache.capabilities@.insert(anchor, entry),
    ensures
        counts_entries(after),
{
    assert(after.capabilities@.dom() =~= before.cache.capabilities@.dom().insert(anchor));
}

/// Clearing the entries of an anchor keeps the count the number of entries.
pub proof fn clearings_are_counted(before: Ledger, after: Ledger, anchor: Address)
    requires
        counts_entries(before.cache),
        cleared(before, after, anchor),
    ensures
        counts_entries(after.cache),
{
    assert(after.cache.metadata@.dom() =~= before.cache.metadata@.dom().remove(anchor));
    assert(after.cache.capabilities@.dom() =~= before.cache.capabilities@.dom().remove(anchor));
}

proof fn sweeps_shrink<V>(m: Map<Address, V>, dead: spec_fn(V) -> bool, anchors: Seq<Address>)
    requires
        m.dom().finite(),
    ensures
        without_dead(m, dead, anchors).dom().finite(),
        without_dead(m, dead, anchors).dom().len() == m.dom().len() - dead_count(m, dead, anchors),
    decreases anchors.len(),
{
    if anchors.len() > 0 {
        sweeps_shrink(m, dead, anchors.drop_last());
        let rest = without_dead(m, dead, anchors.drop_last());
        if rest.contains_key(anchors.last()) && dead(rest[anchors.last()]) {
            assert(rest.remove(anchors.last()).dom() =~= rest.dom().remove(anchors.last()));
        }
    }
}

/// A sweep keeps the count the number of entries.
pub proof fn sweeps_are_counted(
    before: CacheState,
    after: CacheState,
    old_metadata: spec_fn(Temporary<MetadataCache>) -> bool,
    old_capabilities: spec_fn(Temporary<CapabilitiesCache>) -> bool,
    anchors: Seq<Address>,
    freed: u64,
)
    requires
        counts_entries(before),
        freed == dead_count(before.metadata@, old_metadata, anchors) + dead_count(
            before.capabilities@,
            old_capabilities,
            anchors,
        ),
        after.metadata@ == without_dead(before.metadata@, old_metadata, anchors),
        after.capabilities@ == without_dead(before.capabilities@, old_capabilities, anchors),
        after.count == crate::arith::floored_difference(before.count, freed),
    ensures
        counts_entries(after),
{
    sweeps_shrink(before.metadata@, old_metadata, anchors);
    sweeps_shrink(before.capabilities@, old_capabilities, anchors);
}

/// Metadata that was cached reads back: fresh for its lifetime, stale in the
/// grace period after it, and expired from then on.
pub proof fn cached_metadata_ages(entry: MetadataCache, now: u64)
    requires
        entry.cached_at <= now,
    ensures
        swr_state(entry, now) == MetadataCacheState::Fresh <==> now - entry.cached_at
            <= entry.ttl_seconds,
        swr_state(entry, now) == MetadataCacheState::Stale <==> entry.ttl_seconds < now
            - entry.cached_at <= entry.ttl_seconds + entry.stale_ttl_seconds,
        swr_state(entry, now) == MetadataCacheState::Expired <==> now - entry.cached_at
            > entry.ttl_seconds + entry.stale_ttl_seconds,
{
}

/// A sweep before the end of time drops no entry within its lifetime.
pub proof fn fresh_entries_are_kept(entry: Temporary<MetadataCache>, now: u64)
    requires
        now < u64::MAX,
        now < entry.value.cached_at + entry.value.ttl_seconds,
    ensures
        !metadata_is_dead(entry, now),
{
}

} // verus!
