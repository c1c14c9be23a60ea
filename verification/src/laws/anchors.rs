//! Laws of what is known of anchors, and of the policies of routing.
use crate::address::Address;
use crate::contract::anchors::{
    anchor_refusal, cluster_refusal, is_active_anchor, switched, version_count, version_range,
    with_anchor,
};
use crate::contract::ledger::{ContractError, Ledger};
use crate::contract::policies::{
    in_force, is_active_policy, is_reputation_ranking, precedes, profile_in, share_of, shares_of,
    standing_score, stands, timed_policy_refusal, weights_in, Standing,
};
use crate::contract::routing::is_candidate;
use crate::contract::types::{
    AnchorMetadataVersion, AnchorReputationRecord, ReputationWeights, RoutingRequest,
    RoutingTimeWindow,
};
use crate::errors::ErrorCode;
use crate::sorting::{bytes_le, is_sorted_order, lists_each, Ranked};
use vstd::prelude::*;

verus! {

/// An anchor that was switched off is not routed to and not listed as active; one
/// that was switched on is active. Everything else that is known of it, and
/// everything known of others, stays.
pub proof fn switching_an_anchor_takes_effect(
    before: Ledger,
    after: Ledger,
    anchor: Address,
    active: bool,
    other: Address,
    request: RoutingRequest,
    min_reputation: u32,
)
    requires
        switched(before, after, anchor, active),
    ensures
        is_active_anchor(after, anchor) == active,
        after.routing.metadata@[anchor].is_active == active,
        after.routing.metadata@[anchor].reputation_score
            == before.routing.metadata@[anchor].reputation_score,
        after.routing.metadata@[anchor].average_settlement_time
            == before.routing.metadata@[anchor].average_settlement_time,
        after.routing.metadata@[anchor].anchor == before.routing.metadata@[anchor].anchor,
        !active ==> !is_candidate(after, anchor, request, min_reputation),
        other != anchor ==> is_active_anchor(after, other) == is_active_anchor(before, other)
            && after.routing.metadata@[other] == before.routing.metadata@[other],
        after.routing.anchors == before.routing.anchors,
        after.routing.blacklist == before.routing.blacklist,
{
}

/// An anchor is active exactly where there is metadata of it that says so.
pub proof fn active_anchors_have_metadata(env: Ledger, anchor: Address)
    ensures
        is_active_anchor(env, anchor) <==> env.routing.metadata@.contains_key(anchor)
            && env.routing.metadata@[anchor].is_active,
        anchor_refusal(env, anchor) is None <==> env.routing.metadata@.contains_key(anchor),
        anchor_refusal(env, anchor) is Some ==> anchor_refusal(env, anchor) == Some(
            ContractError::Code(ErrorCode::AttestorNotRegistered),
        ),
{
}

/// An anchor is listed once: it is added at the end, and not again.
pub proof fn anchors_are_listed_once(list: Seq<Address>, anchor: Address, other: Address)
    ensures
        with_anchor(list, anchor).contains(anchor),
        list.contains(anchor) ==> with_anchor(list, anchor) == list,
        !list.contains(anchor) ==> with_anchor(list, anchor) == list.push(anchor),
        list.contains(other) ==> with_anchor(list, anchor).contains(other),
        other != anchor && with_anchor(list, anchor).contains(other) ==> list.contains(other),
        list.no_duplicates() ==> with_anchor(list, anchor).no_duplicates(),
{
    if !list.contains(anchor) {
        assert(list.push(anchor)[list.len() as int] == anchor);
        if list.contains(other) {
            let i = choose|i: int| 0 <= i < list.len() && list[i] == other;
            assert(list.push(anchor)[i] == other);
        }
        if other != anchor && list.push(anchor).contains(other) {
            let i = choose|i: int|
                0 <= i < list.push(anchor).len() && list.push(anchor)[i] == other;
            assert(list[i] == other);
        }
    }
}

/// The versions from one number to another are those that are stored, oldest
/// first.
pub proof fn histories_are_complete(
    history: Map<(Address, u32), AnchorMetadataVersion>,
    anchor: Address,
    from: u32,
    to: int,
)
    requires
        from - 1 <= to <= u32::MAX,
    ensures
        version_range(history, anchor, from as int, to) == Seq::new(
            (to - from + 1) as nat,
            |i: int| (from + i) as u32,
        ).filter(|v: u32| history.contains_key((anchor, v))).map_values(
            |v: u32| history[(anchor, v)],
        ),
    decreases to - from + 1,
{
    let keep = |v: u32| history.contains_key((anchor, v));
    let entry = |v: u32| history[(anchor, v)];
    let all = Seq::new((to - from + 1) as nat, |i: int| (from + i) as u32);
    reveal(Seq::filter);
    if from <= to {
        let rest = Seq::new((to - from) as nat, |i: int| (from + i) as u32);
        histories_are_complete(history, anchor, from, to - 1);
        assert(all.drop_last() =~= rest);
        assert(all.last() == to as u32);
        if keep(all.last()) {
            assert(all.filter(keep) == rest.filter(keep).push(all.last()));
            assert(rest.filter(keep).push(all.last()).map_values(entry) =~= rest.filter(
                keep,
            ).map_values(entry).push(entry(all.last())));
        } else {
            assert(all.filter(keep) == rest.filter(keep));
        }
    } else {
        assert(all =~= Seq::<u32>::empty());
        assert(all.filter(keep).map_values(entry) =~= Seq::<AnchorMetadataVersion>::empty());
    }
}

/// An anchor without versions has none to count.
pub proof fn versions_count_from_zero(env: Ledger, anchor: Address)
    ensures
        !env.routing.versions@.contains_key(anchor) ==> version_count(env, anchor) == 0,
        env.routing.versions@.contains_key(anchor) ==> version_count(env, anchor)
            == env.routing.versions@[anchor],
        ({
            let r = cluster_refusal(env, Seq::empty());
            r is None <==> env.routing.clusters@.contains_key(Seq::empty())
        }),
{
}

/// Weights are taken exactly where each is positive and the three add up to a
/// thousand; where none were set they are 400, 350 and 250.
pub proof fn reputation_weights_add_up(env: Ledger, w: ReputationWeights)
    ensures
        w.valid() <==> w.success_rate_weight > 0 && w.uptime_weight > 0 && w.operator_quality_weight
            > 0 && w.success_rate_weight + w.uptime_weight + w.operator_quality_weight == 1000,
        env.routing.weights is Some ==> weights_in(env) == env.routing.weights->0,
        env.routing.weights is None ==> weights_in(env).success_rate_weight == 400 && weights_in(
            env,
        ).uptime_weight == 350 && weights_in(env).operator_quality_weight == 250,
{
}

/// The shares of a record are of what it counted, never more than the whole, and
/// the whole where nothing was counted.
pub proof fn shares_are_fair(record: AnchorReputationRecord, part: u64, whole: u64)
    ensures
        whole == 0 ==> share_of(part, whole).part == share_of(part, whole).whole,
        whole > 0 ==> share_of(part, whole).whole == whole,
        whole > 0 && part <= whole ==> share_of(part, whole).part == part,
        whole > 0 && part > whole ==> share_of(part, whole).part == whole,
        share_of(part, whole).whole > 0,
        shares_of(record).success == share_of(record.successful_routed, record.total_routed),
        shares_of(record).uptime == share_of(record.uptime_ticks, record.total_ticks),
        shares_of(record).operator_quality.whole == 10_000,
        record.operator_quality_score <= 10_000 ==> shares_of(record).operator_quality.part
            == record.operator_quality_score,
{
}

/// A ranking by reputation lists every anchor once, those with a record before
/// those without; of those with one, none stands behind an anchor with a lower
/// score, and of equals the smaller encoded address comes first.
pub proof fn rankings_go_by_reputation(
    env: Ledger,
    scores: Seq<u32>,
    r: Seq<Address>,
    i: int,
    j: int,
) -> (order: Seq<usize>)
    requires
        is_reputation_ranking(env, scores, r),
        scores.len() == env.routing.anchors@.len(),
        0 <= i < j < r.len(),
    ensures
        ({
            let n = env.routing.anchors@.len();
            let a = order[i] as int;
            let b = order[j] as int;
            let known = env.routing.reputations@.contains_key(r[i]);
            let other = env.routing.reputations@.contains_key(r[j]);
            &&& r.len() == n
            &&& order.len() == n
            &&& order.no_duplicates()
            &&& 0 <= a < n
            &&& 0 <= b < n
            &&& r[i] == env.routing.anchors@[a]
            &&& r[j] == env.routing.anchors@[b]
            &&& other ==> known
            &&& known && other ==> scores[a] >= scores[b]
            &&& known == other && (!known || scores[a] == scores[b]) ==> bytes_le(
                r[i].xdr(),
                r[j].xdr(),
            )
        }),
{
    let n = env.routing.anchors@.len() as int;
    let (standings, order) = choose|standings: Seq<Standing>, order: Seq<usize>|
        {
            &&& standings.len() == n
            &&& forall|i: int| 0 <= i < n ==> stands(env, #[trigger] standings[i], scores, i)
            &&& #[trigger] is_sorted_order(standings, order)
            &&& lists_each(order, n)
            &&& r.len() == n
            &&& forall|i: int|
                0 <= i < n ==> #[trigger] r[i] == env.routing.anchors@[order[i] as int]
        };
    let a = order[i] as int;
    let b = order[j] as int;
    assert(stands(env, standings[a], scores, a));
    assert(stands(env, standings[b], scores, b));
    assert(standings[a].before(standings[b]));
    assert(r[i] == env.routing.anchors@[a]);
    assert(r[j] == env.routing.anchors@[b]);
    assert(standing_score(env, r[i], scores, a) == standings[a].score);
    order
}

/// A window of the day holds the times from its start up to its end; one that
/// ends before it starts goes over midnight; one that ends where it starts holds
/// the whole day.
pub proof fn windows_hold_their_times(w: RoutingTimeWindow, t: u32)
    ensures
        w.window_start_secs == w.window_end_secs ==> w.contains(t),
        w.window_start_secs < w.window_end_secs ==> (w.contains(t) <==> w.window_start_secs <= t
            < w.window_end_secs),
        w.window_start_secs > w.window_end_secs ==> (w.contains(t) <==> !(w.window_end_secs <= t
            < w.window_start_secs)),
{
}

/// The policy to go by is on record, switched on and holds the time; no other such
/// policy has a smaller priority number, nor the same one and a smaller id.
pub proof fn policies_have_precedence(env: Ledger, id: u64, time: u32, count: u64, other: u64)
    requires
        is_active_policy(env, id, time, count),
    ensures
        1 <= id <= count,
        env.routing.policies@.contains_key(id),
        env.routing.policies@[id].enabled,
        env.routing.policies@[id].window.contains(time),
        1 <= other <= count && env.routing.policies@.contains_key(other)
            && env.routing.policies@[other].enabled && env.routing.policies@[other].window.contains(
            time,
        ) ==> {
            let a = env.routing.policies@[id].priority;
            let b = env.routing.policies@[other].priority;
            a < b || (a == b && id <= other)
        },
{
    if in_force(env, other, time) {
        assert(precedes(env, id, other) || !(1 <= other <= count));
    }
}

/// A policy is in force exactly where it is on record, switched on, and its window
/// holds the time.
pub proof fn policies_are_in_force(env: Ledger, id: u64, time: u32)
    ensures
        in_force(env, id, time) <==> env.routing.policies@.contains_key(id)
            && env.routing.policies@[id].enabled && env.routing.policies@[id].window.contains(time),
{
}

/// A timed policy is taken exactly from the admin, with the name of a strategy and
/// times of the day.
pub proof fn timed_policies_are_checked(env: Ledger, strategy: Seq<char>, start: u32, end: u32)
    ensures
        ({
            let r = timed_policy_refusal(env, strategy, start, end);
            let free = env.access.admin is Some && (env.auth.all || env.auth.signers@.contains(
                env.access.admin->0,
            ));
            &&& r is None <==> free && strategy.len() > 0 && start < 86_400 && end < 86_400
            &&& free && r is Some ==> r == Some(ContractError::Code(ErrorCode::ValidationError))
        }),
{
}

/// The profile to go by is that of the active network where it has one; else that
/// of the default network, while that is still marked as such; else none.
pub proof fn profiles_have_precedence(env: Ledger)
    ensures
        ({
            let profiles = env.routing.profiles@;
            let active = env.routing.active_network is Some && profiles.contains_key(
                env.routing.active_network->0@,
            );
            let fallback = env.routing.default_network is Some && profiles.contains_key(
                env.routing.default_network->0@,
            ) && profiles[env.routing.default_network->0@].is_default;
            &&& active ==> profile_in(env) == Some(profiles[env.routing.active_network->0@])
            &&& !active && fallback ==> profile_in(env) == Some(
                profiles[env.routing.default_network->0@],
            )
            &&& !active && !fallback ==> profile_in(env) is None
        }),
{
}

} // verus!
