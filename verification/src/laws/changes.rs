//! Laws of what each change of the contract's state leaves behind, and of who may
//! make it.
use crate::address::Address;
use crate::contract::access::{
    admin_accepted, admin_proposed, capability_given, capability_withdrawn, code_replaced,
    initialize_refusal, initialized_by, is_zero_hash, role_given, role_withdrawn,
    succession_refusal, upgrade_refusal, version_in,
};
use crate::contract::anchors::{
    anchor_refusal, another_than, cluster_created, cluster_deleted, cluster_updated, create_cluster_refusal,
    deactivate_refusal, delete_cluster_refusal, metadata_set, put_on_blacklist, reactivate_refusal,
    taken_off_blacklist, update_cluster_refusal, version_count,
};
use crate::contract::events::Event;
use crate::contract::ledger::{
    admin_refusal, duty_refusal, AdminTarget, ContractError, Duty, Ledger,
};
use crate::contract::routing::{is_candidate, is_eligible};
use crate::contract::types::{AdminCapability, AdminRole, RoutingRequest};
use crate::errors::ErrorCode;
use vstd::prelude::*;

verus! {

/// The contract is initialised once, by an admin that has signed the call. From
/// then on that one is the admin, under the first schema, and a second call is
/// refused.
pub proof fn the_contract_is_initialised_once(
    before: Ledger,
    after: Ledger,
    admin: Address,
    other: Address,
)
    ensures
        ({
            let r = initialize_refusal(before, admin);
            let signed = before.auth.all || before.auth.signers@.contains(admin);
            &&& r is None <==> signed && !before.access.initialized
            &&& !signed ==> r == Some(ContractError::AuthRequired(admin))
            &&& signed && before.access.initialized ==> r == Some(
                ContractError::Code(ErrorCode::AlreadyInitialized),
            )
        }),
        initialized_by(before, after, admin) ==> {
            &&& after.access.initialized
            &&& after.access.admin == Some(admin)
            &&& after.access.schema_version == 1
            &&& initialize_refusal(after, other) is Some
            &&& after.events@.len() == before.events@.len() + 1
            &&& after.events@.last() is ContractInitialized
            &&& after.events@.last()->ContractInitialized_0.admin == admin
            &&& after.events@.last()->ContractInitialized_0.timestamp == before.clock.timestamp
            &&& after.attestors == before.attestors
            &&& after.quotes == before.quotes
        },
{
}

/// A nominated admin is not the admin yet; they become it with a signature of their
/// own, and only they do. Nobody is nominated afterwards.
pub proof fn admins_are_handed_over(
    before: Ledger,
    proposed: Ledger,
    after: Ledger,
    new_admin: Address,
)
    ensures
        admin_proposed(before, proposed, new_admin) ==> {
            &&& proposed.access.admin == before.access.admin
            &&& proposed.access.pending_admin == Some(new_admin)
            &&& succession_refusal(proposed) is None <==> proposed.auth.all
                || proposed.auth.signers@.contains(new_admin)
            &&& proposed.events@ == before.events@.push(Event::AdminProposed(new_admin))
        },
        before.access.pending_admin is None ==> succession_refusal(before) == Some(
            ContractError::Code(ErrorCode::NotInitialized),
        ),
        admin_proposed(before, proposed, new_admin) && admin_accepted(proposed, after) ==> {
            &&& after.access.admin == Some(new_admin)
            &&& after.access.pending_admin is None
            &&& after.access.roles == before.access.roles
            &&& after.access.capabilities == before.access.capabilities
            &&& succession_refusal(after) is Some
            &&& after.events@.last() == Event::AdminAccepted(new_admin)
        },
{
}

/// A role that was granted is held, one that was withdrawn is not, nobody else's
/// roles change, and the admin stays. Both are announced.
pub proof fn roles_are_given_and_taken(
    before: Ledger,
    after: Ledger,
    a: Address,
    role: AdminRole,
    other: Address,
    other_role: AdminRole,
)
    ensures
        role_given(before, after, a, role) ==> {
            &&& after.access.roles@.contains_key((role, a))
            &&& after.access.roles@[(role, a)]
            &&& after.events@ == before.events@.push(Event::RoleGranted(a, role))
            &&& after.admin_log@.len() == before.admin_log@.len() + 1
        },
        role_withdrawn(before, after, a, role) ==> {
            &&& !after.access.roles@.contains_key((role, a))
            &&& after.events@ == before.events@.push(Event::RoleRevoked(a, role))
            &&& after.admin_log@.len() == before.admin_log@.len() + 1
        },
        role_given(before, after, a, role) || role_withdrawn(before, after, a, role) ==> {
            &&& after.access.admin == before.access.admin
            &&& after.access.capabilities == before.access.capabilities
            &&& (other, other_role) != (a, role) ==> after.access.roles@.contains_key(
                (other_role, other),
            ) == before.access.roles@.contains_key((other_role, other))
            &&& (other, other_role) != (a, role) && before.access.roles@.contains_key(
                (other_role, other),
            ) ==> after.access.roles@[(other_role, other)] == before.access.roles@[(
                other_role,
                other,
            )]
            &&& after.admin_log@.last().actor == before.access.admin->0
        },
{
}

/// A capability that was granted is held, one that was withdrawn is not, nobody
/// else's capabilities change, and the admin stays. Both are announced.
pub proof fn capabilities_are_given_and_taken(
    before: Ledger,
    after: Ledger,
    a: Address,
    cap: AdminCapability,
    other: Address,
    other_cap: AdminCapability,
)
    ensures
        capability_given(before, after, a, cap) ==> {
            &&& after.access.capabilities@.contains_key((cap, a))
            &&& after.access.capabilities@[(cap, a)]
            &&& after.events@ == before.events@.push(Event::CapabilityGranted(a, cap))
            &&& after.admin_log@.len() == before.admin_log@.len() + 1
        },
        capability_withdrawn(before, after, a, cap) ==> {
            &&& !after.access.capabilities@.contains_key((cap, a))
            &&& after.events@ == before.events@.push(Event::CapabilityRevoked(a, cap))
            &&& after.admin_log@.len() == before.admin_log@.len() + 1
        },
        capability_given(before, after, a, cap) || capability_withdrawn(before, after, a, cap) ==> {
            &&& after.access.admin == before.access.admin
            &&& after.access.roles == before.access.roles
            &&& (other, other_cap) != (a, cap) ==> after.access.capabilities@.contains_key(
                (other_cap, other),
            ) == before.access.capabilities@.contains_key((other_cap, other))
            &&& (other, other_cap) != (a, cap) && before.access.capabilities@.contains_key(
                (other_cap, other),
            ) ==> after.access.capabilities@[(other_cap, other)]
                == before.access.capabilities@[(other_cap, other)]
            &&& after.admin_log@.last().actor == before.access.admin->0
        },
{
}

/// New code is taken exactly where the contract is initialised, the call is signed
/// for upgrades and the code has a hash. The patch number goes up by one, the other
/// numbers stay, and the old hash is announced with the new one.
pub proof fn upgrades_count_up(before: Ledger, after: Ledger, hash: [u8; 32])
    requires
        version_in(before).patch < u32::MAX,
    ensures
        ({
            let r = upgrade_refusal(before, hash);
            let signed = duty_refusal(before, Duty::Upgrade) is None;
            let hashed = exists|i: int| 0 <= i < 32 && #[trigger] hash@[i] != 0;
            &&& r is None <==> before.access.initialized && signed && hashed
            &&& before.access.initialized && signed && !hashed ==> r == Some(
                ContractError::Code(ErrorCode::ValidationError),
            )
            &&& !before.access.initialized ==> r == Some(
                ContractError::Code(ErrorCode::NotInitialized),
            )
        }),
        code_replaced(before, after, hash) ==> {
            let v = version_in(before);
            let w = version_in(after);
            &&& w.major == v.major
            &&& w.minor == v.minor
            &&& w.patch == v.patch + 1
            &&& w.upgraded_at == before.clock.timestamp
            &&& after.access.wasm_hash == Some(hash)
            &&& after.access.admin == before.access.admin
            &&& after.access.schema_version == before.access.schema_version
            &&& after.events@.len() == before.events@.len() + 1
            &&& after.events@.last()->ContractUpgraded_0.new_wasm_hash == hash
            &&& after.events@.last()->ContractUpgraded_0.new_patch == v.patch + 1
            &&& before.access.wasm_hash is Some
                ==> after.events@.last()->ContractUpgraded_0.old_wasm_hash
                == before.access.wasm_hash->0
        },
{
    if is_zero_hash(hash) {
        assert forall|i: int| 0 <= i < 32 implies #[trigger] hash@[i] == 0 by {}
    }
}

/// Metadata that was set is what routing goes by: the anchor is active and listed,
/// the values are those given, and they are the newest version of its history. What
/// was cached of it is gone; other anchors stay.
pub proof fn metadata_is_set_as_given(
    before: Ledger,
    after: Ledger,
    anchor: Address,
    reputation: u32,
    settlement: u64,
    liquidity: u32,
    uptime: u32,
    volume: u64,
    other: Address,
)
    requires
        version_count(before, anchor) < u32::MAX,
        metadata_set(
            before,
            after,
            anchor,
            reputation,
            settlement,
            liquidity,
            uptime,
            volume,
        ),
    ensures
        ({
            let m = after.routing.metadata@[anchor];
            let n = version_count(after, anchor);
            let v = after.routing.history@[(anchor, n)];
            &&& after.routing.metadata@.contains_key(anchor)
            &&& m.is_active
            &&& m.anchor == anchor
            &&& m.reputation_score == reputation
            &&& m.average_settlement_time == settlement
            &&& m.liquidity_score == liquidity
            &&& m.uptime_percentage == uptime
            &&& m.total_volume == volume
            &&& n == version_count(before, anchor) + 1
            &&& after.routing.history@.contains_key((anchor, n))
            &&& v.version == n
            &&& v.updated_at == before.clock.timestamp
            &&& v.reputation_score == reputation
            &&& v.average_settlement_time == settlement
            &&& v.liquidity_score == liquidity
            &&& v.uptime_percentage == uptime
            &&& v.total_volume == volume
            &&& v.is_active
        }),
        after.routing.anchors@.contains(anchor),
        before.routing.anchors@.contains(other) ==> after.routing.anchors@.contains(other),
        !after.cache.metadata@.contains_key(anchor),
        !after.cache.capabilities@.contains_key(anchor),
        other != anchor ==> after.routing.metadata@.contains_key(other)
            == before.routing.metadata@.contains_key(other) && after.routing.metadata@[other]
            == before.routing.metadata@[other],
        after.routing.blacklist == before.routing.blacklist,
{
    crate::laws::anchors::anchors_are_listed_once(before.routing.anchors@, anchor, other);
}

/// An anchor is taken out of routing by the admin, and back by whoever may see to
/// its metadata, where there is metadata of it.
pub proof fn anchors_are_switched_by_the_entitled(env: Ledger, anchor: Address)
    ensures
        deactivate_refusal(env, anchor) is None <==> admin_refusal(env) is None
            && env.routing.metadata@.contains_key(anchor),
        reactivate_refusal(env, anchor) is None <==> duty_refusal(env, Duty::AnchorMetadata) is None
            && env.routing.metadata@.contains_key(anchor),
        admin_refusal(env) is Some ==> deactivate_refusal(env, anchor) == admin_refusal(env),
        duty_refusal(env, Duty::AnchorMetadata) is Some ==> reactivate_refusal(env, anchor)
            == duty_refusal(env, Duty::AnchorMetadata),
        !env.routing.metadata@.contains_key(anchor) ==> anchor_refusal(env, anchor) == Some(
            ContractError::Code(ErrorCode::AttestorNotRegistered),
        ),
{
}

/// An anchor on the blacklist is not routed to; the entry names it, the reason and
/// the time. Taking it off undoes that, and neither touches another anchor.
pub proof fn the_blacklist_keeps_anchors_out(
    before: Ledger,
    on: Ledger,
    off: Ledger,
    anchor: Address,
    reason: String,
    other: Address,
    request: RoutingRequest,
    min_reputation: u32,
)
    requires
        put_on_blacklist(before, on, anchor, reason),
        taken_off_blacklist(on, off, anchor),
    ensures
        on.routing.blacklist@.contains_key(anchor),
        on.routing.blacklist@[anchor].anchor == anchor,
        on.routing.blacklist@[anchor].reason == reason,
        on.routing.blacklist@[anchor].blacklisted_at == before.clock.timestamp,
        on.routing.blacklist_index@.contains(anchor),
        !is_candidate(on, anchor, request, min_reputation),
        !is_eligible(on, anchor, min_reputation),
        on.events@ == before.events@.push(Event::AnchorBlacklisted(anchor)),
        on.admin_log@.last().actor == before.access.admin->0,
        on.admin_log@.last().target == AdminTarget::Account(anchor),
        !off.routing.blacklist@.contains_key(anchor),
        !off.routing.blacklist_index@.contains(anchor),
        off.events@ == on.events@.push(Event::AnchorUnblacklisted(anchor)),
        off.admin_log@.len() == on.admin_log@.len() + 1,
        !before.routing.blacklist@.contains_key(anchor) ==> is_candidate(
            off,
            anchor,
            request,
            min_reputation,
        ) == is_candidate(before, anchor, request, min_reputation),
        other != anchor ==> {
            &&& on.routing.blacklist@.contains_key(other) == before.routing.blacklist@.contains_key(
                other,
            )
            &&& off.routing.blacklist@.contains_key(other)
                == before.routing.blacklist@.contains_key(other)
        },
        on.routing.metadata == before.routing.metadata,
        off.routing.metadata == before.routing.metadata,
{
    crate::laws::anchors::anchors_are_listed_once(before.routing.blacklist_index@, anchor, other);
    kept_satisfy(on.routing.blacklist_index@, another_than(anchor), anchor);
}

proof fn kept_satisfy<A>(s: Seq<A>, keep: spec_fn(A) -> bool, x: A)
    ensures
        s.filter(keep).contains(x) ==> keep(x),
    decreases s.len(),
{
    reveal(Seq::filter);
    if s.len() > 0 {
        let rest = s.drop_last();
        kept_satisfy(rest, keep, x);
        if keep(s.last()) && s.filter(keep).contains(x) {
            let all = rest.filter(keep).push(s.last());
            let i = choose|i: int| 0 <= i < all.len() && all[i] == x;
            if i < rest.filter(keep).len() {
                assert(rest.filter(keep)[i] == x);
            }
        }
    }
}

/// A cluster is created by the admin under an id that is free, read back as it was
/// given, changed and deleted by the admin only where it is stored.
pub proof fn clusters_are_kept_by_the_admin(
    before: Ledger,
    after: Ledger,
    id: String,
    name: String,
    anchors: Vec<Address>,
    other: Seq<char>,
)
    ensures
        ({
            let stored = before.routing.clusters@.contains_key(id@);
            let admin = admin_refusal(before);
            &&& create_cluster_refusal(before, id) is None <==> admin is None && !stored
            &&& delete_cluster_refusal(before, id) is None <==> admin is None && stored
            &&& update_cluster_refusal(before, id) is None <==> admin is None && stored
            &&& admin is None && stored ==> create_cluster_refusal(before, id) == Some(
                ContractError::Code(ErrorCode::AlreadyInitialized),
            )
        }),
        cluster_created(before, after, id, name, anchors) ==> {
            let c = after.routing.clusters@[id@];
            &&& after.routing.clusters@.contains_key(id@)
            &&& c.cluster_id == id
            &&& c.name == name
            &&& c.anchors == anchors
            &&& c.created_at == before.clock.timestamp
            &&& after.events@ == before.events@.push(Event::ClusterCreated)
        },
        cluster_updated(before, after, id, anchors) ==> {
            let c = after.routing.clusters@[id@];
            &&& c.anchors == anchors
            &&& c.name == before.routing.clusters@[id@].name
            &&& c.created_at == before.routing.clusters@[id@].created_at
            &&& c.cluster_id == before.routing.clusters@[id@].cluster_id
            &&& after.routing.cluster_ids == before.routing.cluster_ids
        },
        cluster_deleted(before, after, id) ==> !after.routing.clusters@.contains_key(id@)
            && update_cluster_refusal(after, id) is Some,
        cluster_created(before, after, id, name, anchors) || cluster_updated(
            before,
            after,
            id,
            anchors,
        ) || cluster_deleted(before, after, id) ==> (other != id@
            ==> after.routing.clusters@.contains_key(other)
            == before.routing.clusters@.contains_key(other)),
        cluster_created(before, after, id, name, anchors) || cluster_updated(
            before,
            after,
            id,
            anchors,
        ) || cluster_deleted(before, after, id) ==> (other != id@
            && before.routing.clusters@.contains_key(other) ==> after.routing.clusters@[other]
            == before.routing.clusters@[other]),
{
}

} // verus!
