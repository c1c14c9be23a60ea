//! What is known of anchors: metadata and its history, the blacklist, and
//! clusters.
use crate::address::Address;
use crate::contract::cache::cleared;
use crate::contract::events::Event;
use crate::contract::ledger::{
    admin_refusal, either, follows, duty_refusal, refuse_when, AdminAction, AdminOutcome,
    AdminTarget, AnchorKitContract, ContractError, Duty, Ledger, RoutingState,
};
use crate::contract::types::{
    AnchorBlacklistEntry, AnchorCluster, AnchorMetadataVersion, RoutingAnchorMeta, RoutingOptions,
};
use crate::contract::routing::{is_blacklisted, is_candidate, is_eligible, is_preferred};
use crate::errors::ErrorCode;
use crate::lists::{filtered_once, pushed_once};
use crate::text::same_text;
use vstd::prelude::*;

verus! {

/// How many versions a history lists.
pub const MAX_HISTORY: u32 = 50;

/// How many versions of an anchor's metadata were written.
pub open spec fn version_count(env: Ledger, anchor: Address) -> u32 {
    if env.routing.versions@.contains_key(anchor) {
        env.routing.versions@[anchor]
    } else {
        0
    }
}

/// The refusal of an anchor without metadata.
pub open spec fn anchor_refusal(env: Ledger, anchor: Address) -> Option<ContractError> {
    refuse_when(
        !env.routing.metadata@.contains_key(anchor),
        ErrorCode::AttestorNotRegistered,
    )
}

/// The list with an anchor appended, unless it is there already.
pub open spec fn with_anchor(list: Seq<Address>, anchor: Address) -> Seq<Address> {
    if list.contains(anchor) {
        list
    } else {
        list.push(anchor)
    }
}

/// The stored versions from `from` to `to`, oldest first.
pub open spec fn version_range(
    history: Map<(Address, u32), AnchorMetadataVersion>,
    anchor: Address,
    from: int,
    to: int,
) -> Seq<AnchorMetadataVersion>
    decreases to - from + 1,
{
    if from > to {
        Seq::empty()
    } else {
        let rest = version_range(history, anchor, from, to - 1);
        if history.contains_key((anchor, to as u32)) {
            rest.push(history[(anchor, to as u32)])
        } else {
            rest
        }
    }
}

/// Whether an anchor has metadata and is active.
pub open spec fn is_active_anchor(env: Ledger, anchor: Address) -> bool {
    env.routing.metadata@.contains_key(anchor) && env.routing.metadata@[anchor].is_active
}

/// The ledger with the metadata of one anchor switched on or off.
pub open spec fn switched(before: Ledger, after: Ledger, anchor: Address, active: bool) -> bool {
    &&& after == (Ledger {
        routing: RoutingState { metadata: after.routing.metadata, ..before.routing },
        ..before
    })
    &&& after.routing.metadata@ == before.routing.metadata@.insert(
        anchor,
        (RoutingAnchorMeta { is_active: active, ..before.routing.metadata@[anchor] }),
    )
}

/// The refusal of an unknown cluster.
pub open spec fn cluster_refusal(env: Ledger, cluster_id: Seq<char>) -> Option<ContractError> {
    refuse_when(!env.routing.clusters@.contains_key(cluster_id), ErrorCode::ValidationError)
}

/// Whether a text is among the names.
pub open spec fn names_it(names: Seq<String>, name: Seq<char>) -> bool {
    exists|i: int| 0 <= i < names.len() && (#[trigger] names[i])@ == name
}

/// Whether an address is in a list.
pub fn lists_address(list: &Vec<Address>, a: &Address) -> (r: bool)
    ensures
        r == list@.contains(*a),
{
    let mut i: usize = 0;
    while i < list.len()
        invariant
            0 <= i <= list@.len(),
            forall|j: int| 0 <= j < i ==> list@[j] != *a,
        decreases list@.len() - i,
    {
        if list[i].equals(a) {
            return true;
        }
        i = i + 1;
    }
    false
}

fn lists_name(names: &Vec<String>, name: &String) -> (r: bool)
    ensures
        r == names_it(names@, name@),
{
    let mut i: usize = 0;
    while i < names.len()
        invariant
            0 <= i <= names@.len(),
            forall|j: int| 0 <= j < i ==> (#[trigger] names@[j])@ != name@,
        decreases names@.len() - i,
    {
        if same_text(names[i].as_str(), name.as_str()) {
            assert(names@[i as int]@ == name@);
            return true;
        }
        i = i + 1;
    }
    false
}

/// The list without an address.
pub fn without_address(list: &Vec<Address>, a: &Address) -> (r: Vec<Address>)
    ensures
        r@ == list@.filter(|x: Address| x != *a),
{
    let mut kept: Vec<Address> = Vec::new();
    let mut i: usize = 0;
    let ghost keep = |x: Address| x != *a;
    proof {
        reveal(Seq::filter);
        assert(kept@ =~= list@.take(0).filter(keep));
    }
    while i < list.len()
        invariant
            0 <= i <= list@.len(),
            keep == (|x: Address| x != *a),
            kept@ == list@.take(i as int).filter(keep),
        decreases list@.len() - i,
    {
        if !list[i].equals(a) {
            kept.push(list[i]);
        }
        proof {
            reveal(Seq::filter);
            assert(list@.take(i + 1).drop_last() =~= list@.take(i as int));
        }
        i = i + 1;
    }
    assert(list@.take(list@.len() as int) =~= list@);
    kept
}

fn without_name(names: &Vec<String>, name: &String) -> (r: Vec<String>)
    ensures
        r@ == names@.filter(|x: String| x@ != name@),
{
    let mut kept: Vec<String> = Vec::new();
    let mut i: usize = 0;
    let ghost keep = |x: String| x@ != name@;
    proof {
        reveal(Seq::filter);
        assert(kept@ =~= names@.take(0).filter(keep));
    }
    while i < names.len()
        invariant
            0 <= i <= names@.len(),
            keep == (|x: String| x@ != name@),
            kept@ == names@.take(i as int).filter(keep),
        decreases names@.len() - i,
    {
        if !same_text(names[i].as_str(), name.as_str()) {
            kept.push(names[i].clone());
        }
        proof {
            reveal(Seq::filter);
            assert(names@.take(i + 1).drop_last() =~= names@.take(i as int));
        }
        i = i + 1;
    }
    assert(names@.take(names@.len() as int) =~= names@);
    kept
}

/// The ledger after the metadata of an anchor was stored.
pub open spec fn metadata_set(
    before: Ledger,
    after: Ledger,
    anchor: Address,
    reputation_score: u32,
    average_settlement_time: u64,
    liquidity_score: u32,
    uptime_percentage: u32,
    total_volume: u64,
) -> bool {
    let version = (version_count(before, anchor) + 1) as u32;
    &&& cleared(
        before,
        (Ledger { routing: before.routing, ..after }),
        anchor,
    )
    &&& after.routing == (RoutingState {
        metadata: after.routing.metadata,
        versions: after.routing.versions,
        history: after.routing.history,
        anchors: after.routing.anchors,
        ..before.routing
    })
    &&& after.routing.metadata@ == before.routing.metadata@.insert(
        anchor,
        (RoutingAnchorMeta {
            anchor,
            reputation_score,
            average_settlement_time,
            liquidity_score,
            uptime_percentage,
            total_volume,
            is_active: true,
        }),
    )
    &&& after.routing.versions@ == before.routing.versions@.insert(
        anchor,
        version,
    )
    &&& after.routing.history@ == before.routing.history@.insert(
        (anchor, version),
        (AnchorMetadataVersion {
            version,
            updated_at: before.clock.timestamp,
            reputation_score,
            average_settlement_time,
            liquidity_score,
            uptime_percentage,
            total_volume,
            is_active: true,
        }),
    )
    &&& after.routing.anchors@ == with_anchor(before.routing.anchors@, anchor)
}

/// Why an anchor cannot be taken out of routing.
pub open spec fn deactivate_refusal(env: Ledger, anchor: Address) -> Option<ContractError> {
    either(admin_refusal(env), anchor_refusal(env, anchor))
}

/// Why an anchor cannot be taken back into routing.
pub open spec fn reactivate_refusal(env: Ledger, anchor: Address) -> Option<ContractError> {
    either(
        duty_refusal(env, Duty::AnchorMetadata),
        anchor_refusal(env, anchor),
    )
}

/// The ledger after an anchor was put on the blacklist.
pub open spec fn put_on_blacklist(
    before: Ledger,
    after: Ledger,
    anchor: Address,
    reason: String,
) -> bool {
    &&& after == (Ledger {
        routing: RoutingState {
            blacklist: after.routing.blacklist,
            blacklist_index: after.routing.blacklist_index,
            ..before.routing
        },
        admin_log: after.admin_log,
        events: after.events,
        ..before
    })
    &&& after.routing.blacklist@ == before.routing.blacklist@.insert(
        anchor,
        (AnchorBlacklistEntry {
            anchor,
            reason,
            blacklisted_at: before.clock.timestamp,
        }),
    )
    &&& after.routing.blacklist_index@ == with_anchor(
        before.routing.blacklist_index@,
        anchor,
    )
    &&& after.admin_log@ == before.admin_log@.push(
        AdminAction {
            actor: before.access.admin->0,
            action: "blacklist_anchor",
            target: AdminTarget::Account(anchor),
            before: "active",
            after: AdminOutcome::Label("blacklisted"),
        },
    )
    &&& after.events@ == before.events@.push(Event::AnchorBlacklisted(anchor))
}

/// The addresses other than one.
pub open spec fn another_than(anchor: Address) -> spec_fn(Address) -> bool {
    |x: Address| x != anchor
}

/// The ledger after an anchor was taken off the blacklist.
pub open spec fn taken_off_blacklist(before: Ledger, after: Ledger, anchor: Address) -> bool {
    &&& after == (Ledger {
        routing: RoutingState {
            blacklist: after.routing.blacklist,
            blacklist_index: after.routing.blacklist_index,
            ..before.routing
        },
        admin_log: after.admin_log,
        events: after.events,
        ..before
    })
    &&& after.routing.blacklist@ == before.routing.blacklist@.remove(anchor)
    &&& after.routing.blacklist_index@ == before.routing.blacklist_index@.filter(
        another_than(anchor),
    )
    &&& after.admin_log@ == before.admin_log@.push(
        AdminAction {
            actor: before.access.admin->0,
            action: "remove_from_blacklist",
            target: AdminTarget::Account(anchor),
            before: "blacklisted",
            after: AdminOutcome::Label("active"),
        },
    )
    &&& after.events@ == before.events@.push(Event::AnchorUnblacklisted(anchor))
}

/// Why a cluster cannot be created.
pub open spec fn create_cluster_refusal(env: Ledger, cluster_id: String) -> Option<ContractError> {
    either(
        admin_refusal(env),
        refuse_when(
            env.routing.clusters@.contains_key(cluster_id@),
            ErrorCode::AlreadyInitialized,
        ),
    )
}

/// The ledger after a cluster was created.
pub open spec fn cluster_created(
    before: Ledger,
    after: Ledger,
    cluster_id: String,
    name: String,
    anchors: Vec<Address>,
) -> bool {
    &&& after == (Ledger {
        routing: RoutingState {
            clusters: after.routing.clusters,
            cluster_ids: after.routing.cluster_ids,
            ..before.routing
        },
        events: after.events,
        ..before
    })
    &&& after.routing.clusters@ == before.routing.clusters@.insert(
        cluster_id@,
        (AnchorCluster {
            cluster_id,
            name,
            anchors,
            created_at: before.clock.timestamp,
        }),
    )
    &&& after.routing.cluster_ids@ == (if names_it(
        before.routing.cluster_ids@,
        cluster_id@,
    ) {
        before.routing.cluster_ids@
    } else {
        before.routing.cluster_ids@.push(cluster_id)
    })
    &&& after.events@ == before.events@.push(Event::ClusterCreated)
}

/// Why a cluster cannot be deleted.
pub open spec fn delete_cluster_refusal(env: Ledger, cluster_id: String) -> Option<ContractError> {
    either(admin_refusal(env), cluster_refusal(env, cluster_id@))
}

/// The ledger after a cluster was deleted.
pub open spec fn cluster_deleted(before: Ledger, after: Ledger, cluster_id: String) -> bool {
    &&& after == (Ledger {
        routing: RoutingState {
            clusters: after.routing.clusters,
            cluster_ids: after.routing.cluster_ids,
            ..before.routing
        },
        events: after.events,
        ..before
    })
    &&& after.routing.clusters@ == before.routing.clusters@.remove(cluster_id@)
    &&& after.routing.cluster_ids@ == before.routing.cluster_ids@.filter(
        |x: String| x@ != cluster_id@,
    )
    &&& after.events@ == before.events@.push(Event::ClusterDeleted(cluster_id))
}

/// Why the anchors of a cluster cannot be replaced.
pub open spec fn update_cluster_refusal(env: Ledger, cluster_id: String) -> Option<ContractError> {
    either(admin_refusal(env), cluster_refusal(env, cluster_id@))
}

/// The ledger after the anchors of a cluster were replaced.
pub open spec fn cluster_updated(
    before: Ledger,
    after: Ledger,
    cluster_id: String,
    anchors: Vec<Address>,
) -> bool {
    &&& after == (Ledger {
        routing: RoutingState {
            clusters: after.routing.clusters,
            ..before.routing
        },
        events: after.events,
        ..before
    })
    &&& after.routing.clusters@ == before.routing.clusters@.insert(
        cluster_id@,
        (AnchorCluster { anchors, ..before.routing.clusters@[cluster_id@] }),
    )
    &&& after.events@ == before.events@.push(Event::ClusterUpdated(cluster_id))
}

/// The last fifty versions of the metadata of an anchor.
pub open spec fn recent_versions(env: Ledger, anchor: Address) -> Seq<AnchorMetadataVersion> {
    let total = version_count(env, anchor);
    let start = if total > MAX_HISTORY {
        total - MAX_HISTORY + 1
    } else {
        1
    };
    version_range(env.routing.history@, anchor, start, total as int)
}

/// The active anchors, in the order in which they were added.
pub open spec fn active_anchors(env: Ledger) -> Seq<Address> {
    env.routing.anchors@.filter(|a: Address| is_active_anchor(env, a))
}

impl AnchorKitContract {
    /// Stores the metadata of an anchor, which is active from then on: as the
    /// current metadata, as the next version of its history, and the anchor
    /// among those that routing goes through. What was cached of it is cleared.
    pub fn set_anchor_metadata(
        env: &mut Ledger,
        anchor: Address,
        reputation_score: u32,
        average_settlement_time: u64,
        liquidity_score: u32,
        uptime_percentage: u32,
        total_volume: u64,
    ) -> (r: Result<(), ContractError>)
        requires
            version_count(*old(env), anchor) < u32::MAX,
        ensures
            follows(r, duty_refusal(*old(env), Duty::AnchorMetadata)),
            r is Err ==> *final(env) == *old(env),
            r is Ok ==> metadata_set(
                *old(env),
                *final(env),
                anchor,
                reputation_score,
                average_settlement_time,
                liquidity_score,
                uptime_percentage,
                total_volume,
            ),
    {
        if let Err(e) = env.require_duty(Duty::AnchorMetadata) {
            return Err(e);
        }
        let meta = RoutingAnchorMeta {
            anchor,
            reputation_score,
            average_settlement_time,
            liquidity_score,
            uptime_percentage,
            total_volume,
            is_active: true,
        };
        env.routing.metadata.set(anchor, meta);
        let version: u32 = Self::get_anchor_meta_version_count(env, anchor) + 1;
        env.routing.versions.set(anchor, version);
        let entry = AnchorMetadataVersion {
            version,
            updated_at: env.clock.timestamp,
            reputation_score,
            average_settlement_time,
            liquidity_score,
            uptime_percentage,
            total_volume,
            is_active: true,
        };
        env.routing.history.set((anchor, version), entry);
        if !lists_address(&env.routing.anchors, &anchor) {
            env.routing.anchors.push(anchor);
        }
        Self::invalidate_cache_internal(env, &anchor);
        Ok(())
    }

    /// How many versions of an anchor's metadata were written.
    pub fn get_anchor_meta_version_count(env: &Ledger, anchor: Address) -> (n: u32)
        ensures
            n == version_count(*env, anchor),
    {
        match env.routing.versions.get(&anchor) {
            Some(n) => *n,
            None => 0,
        }
    }

    /// One version of an anchor's metadata; the first has number one.
    pub fn get_anchor_metadata_at_version(env: &Ledger, anchor: Address, version: u32) -> (r: Result<
        AnchorMetadataVersion,
        ContractError,
    >)
        ensures
            follows(
                r,
                refuse_when(
                    !env.routing.history@.contains_key((anchor, version)),
                    ErrorCode::AttestorNotRegistered,
                ),
            ),
            r is Ok ==> r->Ok_0 == env.routing.history@[(anchor, version)],
    {
        match env.routing.history.get(&(anchor, version)) {
            Some(v) => Ok(*v),
            None => Err(ContractError::Code(ErrorCode::AttestorNotRegistered)),
        }
    }

    /// The last fifty versions of an anchor's metadata, oldest first.
    pub fn get_anchor_metadata_history(env: &Ledger, anchor: Address) -> (r: Vec<
        AnchorMetadataVersion,
    >)
        ensures
            r@ == recent_versions(*env, anchor),
    {
        let total: u32 = Self::get_anchor_meta_version_count(env, anchor);
        let start: u32 = if total > MAX_HISTORY {
            total - MAX_HISTORY + 1
        } else {
            1
        };
        let mut history: Vec<AnchorMetadataVersion> = Vec::new();
        let mut v: u32 = start - 1;
        while v < total
            invariant
                1 <= start,
                start - 1 <= v,
                v <= total,
                history@ == version_range(
                    env.routing.history@,
                    anchor,
                    start as int,
                    v as int,
                ),
            decreases total - v,
        {
            v = v + 1;
            if let Some(entry) = env.routing.history.get(&(anchor, v)) {
                history.push(*entry);
            }
        }
        history
    }

    /// Takes an anchor out of routing.
    pub fn deactivate_anchor(env: &mut Ledger, anchor: Address) -> (r: Result<(), ContractError>)
        ensures
            follows(r, deactivate_refusal(*old(env), anchor)),
            r is Err ==> *final(env) == *old(env),
            r is Ok ==> switched(*old(env), *final(env), anchor, false),
    {
        if let Err(e) = env.require_admin() {
            return Err(e);
        }
        match env.routing.metadata.get_mut(&anchor) {
            Some(meta) => {
                meta.is_active = false;
                Ok(())
            },
            None => Err(ContractError::Code(ErrorCode::AttestorNotRegistered)),
        }
    }

    /// Takes an anchor back into routing.
    pub fn reactivate_anchor(env: &mut Ledger, anchor: Address) -> (r: Result<(), ContractError>)
        ensures
            follows(r, reactivate_refusal(*old(env), anchor)),
            r is Err ==> *final(env) == *old(env),
            r is Ok ==> switched(*old(env), *final(env), anchor, true),
    {
        if let Err(e) = env.require_duty(Duty::AnchorMetadata) {
            return Err(e);
        }
        match env.routing.metadata.get_mut(&anchor) {
            Some(meta) => {
                meta.is_active = true;
                Ok(())
            },
            None => Err(ContractError::Code(ErrorCode::AttestorNotRegistered)),
        }
    }

    /// The current metadata of an anchor.
    pub fn get_anchor_metadata(env: &Ledger, anchor: Address) -> (r: Result<
        RoutingAnchorMeta,
        ContractError,
    >)
        ensures
            follows(r, anchor_refusal(*env, anchor)),
            r is Ok ==> r->Ok_0 == env.routing.metadata@[anchor],
    {
        match env.routing.metadata.get(&anchor) {
            Some(meta) => Ok(*meta),
            None => Err(ContractError::Code(ErrorCode::AttestorNotRegistered)),
        }
    }

    /// The active anchors, in the order in which they were added.
    pub fn list_active_anchors(env: &Ledger) -> (r: Vec<Address>)
        ensures
            r@ == active_anchors(*env),
    {
        let mut active: Vec<Address> = Vec::new();
        let mut i: usize = 0;
        let ghost list = env.routing.anchors@;
        let ghost keep = |a: Address| is_active_anchor(*env, a);
        proof {
            reveal(Seq::filter);
            assert(active@ =~= list.take(0).filter(keep));
        }
        while i < env.routing.anchors.len()
            invariant
                0 <= i <= list.len(),
                list == env.routing.anchors@,
                keep == (|a: Address| is_active_anchor(*env, a)),
                active@ == list.take(i as int).filter(keep),
            decreases list.len() - i,
        {
            let anchor = env.routing.anchors[i];
            if let Some(meta) = env.routing.metadata.get(&anchor) {
                if meta.is_active {
                    active.push(anchor);
                }
            }
            proof {
                reveal(Seq::filter);
                assert(list.take(i + 1).drop_last() =~= list.take(i as int));
            }
            i = i + 1;
        }
        assert(list.take(list.len() as int) =~= list);
        active
    }

    /// Puts an anchor on the blacklist, which keeps it out of routing.
    pub fn blacklist_anchor(env: &mut Ledger, anchor: Address, reason: String) -> (r: Result<
        (),
        ContractError,
    >)
        ensures
            follows(r, duty_refusal(*old(env), Duty::AnchorMetadata)),
            r is Err ==> *final(env) == *old(env),
            r is Ok ==> put_on_blacklist(*old(env), *final(env), anchor, reason),
    {
        let admin = match env.require_duty(Duty::AnchorMetadata) {
            Err(e) => {
                return Err(e);
            },
            Ok(a) => a,
        };
        let entry = AnchorBlacklistEntry { anchor, reason, blacklisted_at: env.clock.timestamp };
        env.routing.blacklist.set(anchor, entry);
        if !lists_address(&env.routing.blacklist_index, &anchor) {
            env.routing.blacklist_index.push(anchor);
        }
        env.log_action(
            admin,
            "blacklist_anchor",
            AdminTarget::Account(anchor),
            "active",
            "blacklisted",
        );
        env.publish(Event::AnchorBlacklisted(anchor));
        Ok(())
    }

    /// Takes an anchor off the blacklist.
    pub fn remove_from_blacklist(env: &mut Ledger, anchor: Address) -> (r: Result<
        (),
        ContractError,
    >)
        ensures
            follows(r, duty_refusal(*old(env), Duty::AnchorMetadata)),
            r is Err ==> *final(env) == *old(env),
            r is Ok ==> taken_off_blacklist(*old(env), *final(env), anchor),
    {
        let admin = match env.require_duty(Duty::AnchorMetadata) {
            Err(e) => {
                return Err(e);
            },
            Ok(a) => a,
        };
        env.routing.blacklist.remove(&anchor);
        let index = without_address(&env.routing.blacklist_index, &anchor);
        env.routing.blacklist_index = index;
        assert(another_than(anchor) =~= (|x: Address| x != anchor));
        env.log_action(
            admin,
            "remove_from_blacklist",
            AdminTarget::Account(anchor),
            "blacklisted",
            "active",
        );
        env.publish(Event::AnchorUnblacklisted(anchor));
        Ok(())
    }

    /// The anchors on the blacklist.
    pub fn get_blacklisted_anchors(env: &Ledger) -> (r: &Vec<Address>)
        ensures
            *r == env.routing.blacklist_index,
    {
        &env.routing.blacklist_index
    }

    /// Stores a new cluster of anchors.
    pub fn create_anchor_cluster(
        env: &mut Ledger,
        cluster_id: String,
        name: String,
        anchors: Vec<Address>,
    ) -> (r: Result<(), ContractError>)
        ensures
            follows(r, create_cluster_refusal(*old(env), cluster_id)),
            r is Err ==> *final(env) == *old(env),
            r is Ok ==> cluster_created(*old(env), *final(env), cluster_id, name, anchors),
    {
        if let Err(e) = env.require_admin() {
            return Err(e);
        }
        if env.routing.clusters.has(&cluster_id) {
            return Err(ContractError::Code(ErrorCode::AlreadyInitialized));
        }
        let cluster = AnchorCluster {
            cluster_id: cluster_id.clone(),
            name,
            anchors,
            created_at: env.clock.timestamp,
        };
        env.routing.clusters.set(cluster_id.clone(), cluster);
        if !lists_name(&env.routing.cluster_ids, &cluster_id) {
            env.routing.cluster_ids.push(cluster_id);
        }
        env.publish(Event::ClusterCreated);
        Ok(())
    }

    /// The cluster with a given id.
    pub fn get_anchor_cluster(env: &Ledger, cluster_id: String) -> (r: Result<
        &AnchorCluster,
        ContractError,
    >)
        ensures
            follows(r, cluster_refusal(*env, cluster_id@)),
            r is Ok ==> *r->Ok_0 == env.routing.clusters@[cluster_id@],
    {
        match env.routing.clusters.get(&cluster_id) {
            Some(c) => Ok(c),
            None => Err(ContractError::Code(ErrorCode::ValidationError)),
        }
    }

    /// The ids of all clusters.
    pub fn list_anchor_clusters(env: &Ledger) -> (r: &Vec<String>)
        ensures
            *r == env.routing.cluster_ids,
    {
        &env.routing.cluster_ids
    }

    /// Drops a cluster.
    pub fn delete_anchor_cluster(env: &mut Ledger, cluster_id: String) -> (r: Result<
        (),
        ContractError,
    >)
        ensures
            follows(r, delete_cluster_refusal(*old(env), cluster_id)),
            r is Err ==> *final(env) == *old(env),
            r is Ok ==> cluster_deleted(*old(env), *final(env), cluster_id),
    {
        if let Err(e) = env.require_admin() {
            return Err(e);
        }
        if !env.routing.clusters.has(&cluster_id) {
            return Err(ContractError::Code(ErrorCode::ValidationError));
        }
        env.routing.clusters.remove(&cluster_id);
        let ids = without_name(&env.routing.cluster_ids, &cluster_id);
        env.routing.cluster_ids = ids;
        env.publish(Event::ClusterDeleted(cluster_id));
        Ok(())
    }

    /// Replaces the anchors of a cluster.
    pub fn update_anchor_cluster_anchors(
        env: &mut Ledger,
        cluster_id: String,
        anchors: Vec<Address>,
    ) -> (r: Result<(), ContractError>)
        ensures
            follows(r, update_cluster_refusal(*old(env), cluster_id)),
            r is Err ==> *final(env) == *old(env),
            r is Ok ==> cluster_updated(*old(env), *final(env), cluster_id, anchors),
    {
        if let Err(e) = env.require_admin() {
            return Err(e);
        }
        if !env.routing.clusters.has(&cluster_id) {
            return Err(ContractError::Code(ErrorCode::ValidationError));
        }
        if let Some(cluster) = env.routing.clusters.get_mut(&cluster_id) {
            cluster.anchors = anchors;
        }
        env.publish(Event::ClusterUpdated(cluster_id));
        Ok(())
    }
}

/// An anchor that is on the blacklist has no candidate for any request, and is
/// neither eligible nor preferred.
pub proof fn blacklisted_anchors_are_not_routed(
    env: Ledger,
    anchor: Address,
    options: RoutingOptions,
)
    requires
        is_blacklisted(env, anchor),
    ensures
        !is_candidate(env, anchor, options.request, options.min_reputation),
        !is_eligible(env, anchor, options.min_reputation),
        !is_preferred(env, anchor, options),
{
}

/// Each write of an anchor's metadata counts its versions up by one, and leaves
/// the versions written before and those of other anchors as they are.
pub proof fn metadata_versions_count_up(
    before: Ledger,
    after: Ledger,
    anchor: Address,
    entry: AnchorMetadataVersion,
    other: Address,
    version: u32,
)
    requires
        version_count(before, anchor) < u32::MAX,
        after.routing.versions@ == before.routing.versions@.insert(
            anchor,
            (version_count(before, anchor) + 1) as u32,
        ),
        after.routing.history@ == before.routing.history@.insert(
            (anchor, (version_count(before, anchor) + 1) as u32),
            entry,
        ),
    ensures
        version_count(after, anchor) == version_count(before, anchor) + 1,
        after.routing.history@[(anchor, version_count(after, anchor))] == entry,
        other != anchor ==> version_count(after, other) == version_count(before, other),
        other != anchor || version <= version_count(before, anchor) ==> {
            &&& after.routing.history@.contains_key((other, version))
                == before.routing.history@.contains_key((other, version))
            &&& after.routing.history@[(other, version)] == before.routing.history@[(
                other,
                version,
            )]
        },
{
}

/// Whether the index names each blacklisted anchor once and no other.
pub open spec fn lists_blacklist(r: RoutingState) -> bool {
    &&& r.blacklist_index@.no_duplicates()
    &&& forall|x: Address|
        #![trigger r.blacklist_index@.contains(x)]
        #![trigger r.blacklist@.contains_key(x)]
        r.blacklist_index@.contains(x) == r.blacklist@.contains_key(x)
}

/// Putting an anchor on the blacklist and taking it off keep the index in step
/// with the blacklist.
pub proof fn the_blacklist_index_stays_in_step(
    before: RoutingState,
    on: RoutingState,
    off: RoutingState,
    anchor: Address,
    entry: AnchorBlacklistEntry,
)
    requires
        lists_blacklist(before),
        on.blacklist@ == before.blacklist@.insert(anchor, entry),
        on.blacklist_index@ == with_anchor(before.blacklist_index@, anchor),
        off.blacklist@ == before.blacklist@.remove(anchor),
        off.blacklist_index@ == before.blacklist_index@.filter(|x: Address| x != anchor),
    ensures
        lists_blacklist(on),
        lists_blacklist(off),
{
    let keep = |x: Address| x != anchor;
    filtered_once(before.blacklist_index@, keep);
    if !before.blacklist_index@.contains(anchor) {
        pushed_once(before.blacklist_index@, anchor);
    }
}

} // verus!
