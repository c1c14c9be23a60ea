//! Reputation of anchors, and policies of routing by time and by network.
use crate::address::Address;
use crate::contract::events::Event;
use crate::contract::ledger::{
    admin_refusal, either, follows, refuse_when, AnchorKitContract, ContractError, Ledger,
    RoutingState,
};
use crate::contract::routing::{validate_weights, weights_refusal};
use crate::contract::types::{
    AnchorReputationRecord, NetworkRoutingProfile, ReputationWeights, RoutingTimeWindow,
    TimedRoutingPolicy,
};
use crate::errors::ErrorCode;
use crate::sorting::{
    bytes_in_order, bytes_le, bytes_le_total, bytes_le_transitive, is_sorted_order, lists_each,
    sorted_order, Ranked,
};
use vstd::prelude::*;
use vstd::string::*;

verus! {

/// Seconds in a day.
pub const SECS_PER_DAY: u32 = 86_400;

/// The weights in force.
pub open spec fn weights_in(env: Ledger) -> ReputationWeights {
    match env.routing.weights {
        Some(w) => w,
        None => ReputationWeights {
            success_rate_weight: 400,
            uptime_weight: 350,
            operator_quality_weight: 250,
        },
    }
}

/// A part of a whole.
#[derive(Clone, Copy, Debug, PartialEq, Eq, Structural)]
pub struct Share {
    pub part: u64,
    pub whole: u64,
}

/// The shares that a reputation score weighs.
#[derive(Clone, Copy, Debug, PartialEq, Eq, Structural)]
pub struct ReputationShares {
    pub success: Share,
    pub uptime: Share,
    pub operator_quality: Share,
}

/// What `part` is of `whole`: all of it at most, and all of it where there is
/// nothing to count.
pub open spec fn share_of(part: u64, whole: u64) -> Share {
    if whole == 0 {
        Share { part: 1, whole: 1 }
    } else if part > whole {
        Share { part: whole, whole }
    } else {
        Share { part, whole }
    }
}

/// The shares of a record.
pub open spec fn shares_of(record: AnchorReputationRecord) -> ReputationShares {
    ReputationShares {
        success: share_of(record.successful_routed, record.total_routed),
        uptime: share_of(record.uptime_ticks, record.total_ticks),
        operator_quality: share_of(record.operator_quality_score as u64, 10_000),
    }
}

fn capped_share(part: u64, whole: u64) -> (s: Share)
    ensures
        s == share_of(part, whole),
{
    if whole == 0 {
        Share { part: 1, whole: 1 }
    } else if part > whole {
        Share { part: whole, whole }
    } else {
        Share { part, whole }
    }
}

/// The shares that the reputation score of a record weighs: an anchor that has
/// routed nothing yet, or was never watched, counts as faultless.
pub fn reputation_shares(record: &AnchorReputationRecord) -> (s: ReputationShares)
    ensures
        s == shares_of(*record),
        0 <= s.success.part <= s.success.whole,
        0 <= s.uptime.part <= s.uptime.whole,
        0 <= s.operator_quality.part <= s.operator_quality.whole,
        s.success.whole > 0,
        s.uptime.whole > 0,
        s.operator_quality.whole > 0,
{
    ReputationShares {
        success: capped_share(record.successful_routed, record.total_routed),
        uptime: capped_share(record.uptime_ticks, record.total_ticks),
        operator_quality: capped_share(record.operator_quality_score as u64, 10_000),
    }
}

/// Where an anchor stands in a ranking by reputation: anchors with a record
/// come before those without, higher scores before lower ones, and of equals
/// the smaller encoded address first.
pub struct Standing {
    pub recorded: bool,
    pub score: u32,
    pub key: Vec<u8>,
}

impl Standing {
    /// Whether the two share a score, and whether both have a record.
    pub open spec fn ties(self, other: Self) -> bool {
        self.recorded == other.recorded && self.score == other.score
    }
}

impl Ranked for Standing {
    open spec fn before(self, other: Self) -> bool {
        if self.recorded != other.recorded {
            self.recorded
        } else if self.score != other.score {
            self.score > other.score
        } else {
            bytes_le(self.key@, other.key@)
        }
    }

    fn is_before(&self, other: &Self) -> (r: bool) {
        if self.recorded != other.recorded {
            self.recorded
        } else if self.score != other.score {
            self.score > other.score
        } else {
            bytes_in_order(&self.key, &other.key)
        }
    }

    proof fn before_total(a: Self, b: Self) {
        bytes_le_total(a.key@, b.key@);
    }

    proof fn before_transitive(a: Self, b: Self, c: Self) {
        if a.ties(b) && b.ties(c) {
            bytes_le_transitive(a.key@, b.key@, c.key@);
        }
    }
}

/// The score of an anchor: the one given for it, or zero where it has no
/// record or none was given.
pub open spec fn standing_score(env: Ledger, anchor: Address, scores: Seq<u32>, i: int) -> u32 {
    if env.routing.reputations@.contains_key(anchor) && 0 <= i < scores.len() {
        scores[i]
    } else {
        0
    }
}

/// Whether `s` is where the `i`th anchor stands.
pub open spec fn stands(env: Ledger, s: Standing, scores: Seq<u32>, i: int) -> bool {
    let anchor = env.routing.anchors@[i];
    &&& s.recorded == env.routing.reputations@.contains_key(anchor)
    &&& s.score == standing_score(env, anchor, scores, i)
    &&& s.key@ == anchor.xdr()
}

/// Whether `r` lists all anchors by their standing.
pub open spec fn is_reputation_ranking(env: Ledger, scores: Seq<u32>, r: Seq<Address>) -> bool {
    let n = env.routing.anchors@.len() as int;
    exists|standings: Seq<Standing>, order: Seq<usize>|
        {
            &&& standings.len() == n
            &&& forall|i: int| 0 <= i < n ==> stands(env, #[trigger] standings[i], scores, i)
            &&& #[trigger] is_sorted_order(standings, order)
            &&& lists_each(order, n)
            &&& r.len() == n
            &&& forall|i: int|
                0 <= i < n ==> #[trigger] r[i] == env.routing.anchors@[order[i] as int]
        }
}

/// Whether a policy is in force at a time of day.
pub open spec fn in_force(env: Ledger, id: u64, time_of_day: u32) -> bool {
    &&& env.routing.policies@.contains_key(id)
    &&& env.routing.policies@[id].enabled
    &&& env.routing.policies@[id].window.contains(time_of_day)
}

/// Whether the policy `id` takes precedence over `other`: the smaller priority
/// number wins, then the smaller id.
pub open spec fn precedes(env: Ledger, id: u64, other: u64) -> bool {
    let a = env.routing.policies@[id].priority;
    let b = env.routing.policies@[other].priority;
    a < b || (a == b && id <= other)
}

/// Whether `id` is the policy to go by at a time of day, among the first
/// `count`.
pub open spec fn is_active_policy(env: Ledger, id: u64, time_of_day: u32, count: u64) -> bool {
    &&& 1 <= id <= count
    &&& in_force(env, id, time_of_day)
    &&& forall|other: u64|
        1 <= other <= count && #[trigger] in_force(env, other, time_of_day) ==> precedes(
            env,
            id,
            other,
        )
}

/// Why a timed policy is refused.
pub open spec fn timed_policy_refusal(
    env: Ledger,
    strategy_name: Seq<char>,
    start: u32,
    end: u32,
) -> Option<ContractError> {
    either(
        admin_refusal(env),
        refuse_when(
            strategy_name.len() == 0 || start >= SECS_PER_DAY || end >= SECS_PER_DAY,
            ErrorCode::ValidationError,
        ),
    )
}

/// The profile to go by: the one of the active network, else the default one
/// where it still is marked as default.
pub open spec fn profile_in(env: Ledger) -> Option<NetworkRoutingProfile> {
    let profiles = env.routing.profiles@;
    if env.routing.active_network is Some && profiles.contains_key(
        env.routing.active_network->0@,
    ) {
        Some(profiles[env.routing.active_network->0@])
    } else if env.routing.default_network is Some && profiles.contains_key(
        env.routing.default_network->0@,
    ) && profiles[env.routing.default_network->0@].is_default {
        Some(profiles[env.routing.default_network->0@])
    } else {
        None
    }
}

fn is_blank(s: &String) -> (r: bool)
    ensures
        r == (s@.len() == 0),
{
    s.as_str().unicode_len() == 0
}

/// Why a reputation is refused.
pub open spec fn reputation_refusal(
    env: Ledger,
    total_routed: u64,
    successful_routed: u64,
    operator_quality_score: u32,
) -> Option<ContractError> {
    either(
        admin_refusal(env),
        refuse_when(
            successful_routed > total_routed || operator_quality_score > 10_000,
            ErrorCode::ValidationError,
        ),
    )
}

/// The ledger after the reputation of an anchor was stored.
pub open spec fn reputation_set(
    before: Ledger,
    after: Ledger,
    anchor: Address,
    total_routed: u64,
    successful_routed: u64,
    operator_quality_score: u32,
    uptime_ticks: u64,
    total_ticks: u64,
) -> bool {
    &&& after == (Ledger {
        routing: RoutingState {
            reputations: after.routing.reputations,
            ..before.routing
        },
        events: after.events,
        ..before
    })
    &&& after.routing.reputations@ == before.routing.reputations@.insert(
        anchor,
        (AnchorReputationRecord {
            anchor,
            total_routed,
            successful_routed,
            operator_quality_score,
            uptime_ticks,
            total_ticks,
            updated_at: before.clock.timestamp,
        }),
    )
    &&& after.events@ == before.events@.push(Event::ReputationUpdated(anchor))
}

/// The ledger after a timed policy was stored.
pub open spec fn timed_policy_added(
    before: Ledger,
    after: Ledger,
    name: String,
    strategy_name: String,
    window_start_secs: u32,
    window_end_secs: u32,
    priority: u32,
    out: u64,
) -> bool {
    let id = out;
    &&& id == before.routing.policy_count + 1
    &&& after == (Ledger {
        routing: RoutingState {
            policies: after.routing.policies,
            policy_count: id,
            ..before.routing
        },
        events: after.events,
        ..before
    })
    &&& after.routing.policies@ == before.routing.policies@.insert(
        id,
        (TimedRoutingPolicy {
            policy_id: id,
            name,
            strategy_name,
            window: RoutingTimeWindow { window_start_secs, window_end_secs },
            priority,
            enabled: true,
        }),
    )
    &&& after.events@ == before.events@.push(Event::TimedPolicyAdded(id))
}

/// Why a timed policy cannot be switched.
pub open spec fn policy_switch_refusal(env: Ledger, policy_id: u64) -> Option<ContractError> {
    either(
        admin_refusal(env),
        refuse_when(
            !env.routing.policies@.contains_key(policy_id),
            ErrorCode::ValidationError,
        ),
    )
}

/// The ledger after a timed policy was switched on or off.
pub open spec fn timed_policy_switched(
    before: Ledger,
    after: Ledger,
    policy_id: u64,
    enabled: bool,
) -> bool {
    &&& after == (Ledger {
        routing: RoutingState {
            policies: after.routing.policies,
            ..before.routing
        },
        ..before
    })
    &&& after.routing.policies@ == before.routing.policies@.insert(
        policy_id,
        (TimedRoutingPolicy { enabled, ..before.routing.policies@[policy_id] }),
    )
}

/// Why the profile of a network is refused.
pub open spec fn profile_store_refusal(
    env: Ledger,
    network_name: String,
    default_strategy: String,
    fee_weight: u32,
    speed_weight: u32,
    reputation_weight: u32,
) -> Option<ContractError> {
    either(
        admin_refusal(env),
        either(
            refuse_when(
                network_name@.len() == 0 || default_strategy@.len() == 0,
                ErrorCode::ValidationError,
            ),
            weights_refusal(fee_weight, speed_weight, reputation_weight),
        ),
    )
}

/// The ledger after the profile of a network was stored.
pub open spec fn profile_stored(
    before: Ledger,
    after: Ledger,
    network_name: String,
    default_strategy: String,
    fee_weight: u32,
    speed_weight: u32,
    reputation_weight: u32,
    min_reputation: u32,
    is_default: bool,
) -> bool {
    &&& after == (Ledger {
        routing: RoutingState {
            profiles: after.routing.profiles,
            default_network: if is_default {
                Some(network_name)
            } else {
                before.routing.default_network
            },
            ..before.routing
        },
        events: after.events,
        ..before
    })
    &&& after.routing.profiles@ == before.routing.profiles@.insert(
        network_name@,
        (NetworkRoutingProfile {
            network_name,
            default_strategy,
            fee_weight,
            speed_weight,
            reputation_weight,
            min_reputation,
            is_default,
        }),
    )
    &&& after.events@ == before.events@.push(
        Event::NetworkProfileSet(network_name),
    )
}

/// Why a network cannot be made the active one.
pub open spec fn network_refusal(env: Ledger, network_name: String) -> Option<ContractError> {
    either(
        admin_refusal(env),
        refuse_when(network_name@.len() == 0, ErrorCode::ValidationError),
    )
}

/// The ledger after the active network was set.
pub open spec fn network_activated(before: Ledger, after: Ledger, network_name: String) -> bool {
    after == (Ledger {
        routing: RoutingState {
            active_network: Some(network_name),
            ..before.routing
        },
        ..before
    })
}

/// The reputation of an anchor, given the score of its record.
pub open spec fn composite_of(env: Ledger, anchor: Address, score: u32) -> u32 {
    if env.routing.reputations@.contains_key(anchor) {
        score
    } else {
        0
    }
}

/// What comes of replacing the weights of a reputation.
pub open spec fn weights_outcome(
    before: Ledger,
    after: Ledger,
    success_rate_weight: u32,
    uptime_weight: u32,
    operator_quality_weight: u32,
    out: Result<(), ContractError>,
) -> bool {
    let weights = ReputationWeights {
        success_rate_weight,
        uptime_weight,
        operator_quality_weight,
    };
    &&& follows(
        out,
        either(
            admin_refusal(before),
            refuse_when(!weights.valid(), ErrorCode::InvalidWeights),
        ),
    )
    &&& after == (if out is Ok {
        Ledger {
            routing: RoutingState { weights: Some(weights), ..before.routing },
            ..before
        }
    } else {
        before
    })
}

/// Whether this is the strategy to go by at a time.
pub open spec fn is_strategy_at(env: Ledger, unix_timestamp: u64, out: Option<String>) -> bool {
    let time = (unix_timestamp % 86_400) as u32;
    let count = env.routing.policy_count;
    match out {
        Some(s) => exists|id: u64|
            #[trigger] is_active_policy(env, id, time, count) && s
                == env.routing.policies@[id].strategy_name,
        None => forall|id: u64|
            1 <= id <= count ==> !#[trigger] in_force(env, id, time),
    }
}

impl AnchorKitContract {
    /// Stores the reputation record of an anchor.
    pub fn set_anchor_reputation(
        env: &mut Ledger,
        anchor: Address,
        total_routed: u64,
        successful_routed: u64,
        operator_quality_score: u32,
        uptime_ticks: u64,
        total_ticks: u64,
    ) -> (r: Result<(), ContractError>)
        ensures
            follows(r, reputation_refusal(
                *old(env),
                total_routed,
                successful_routed,
                operator_quality_score,
            )),
            r is Err ==> *final(env) == *old(env),
            r is Ok ==> reputation_set(
                *old(env),
                *final(env),
                anchor,
                total_routed,
                successful_routed,
                operator_quality_score,
                uptime_ticks,
                total_ticks,
            ),
    {
        if let Err(e) = env.require_admin() {
            return Err(e);
        }
        if successful_routed > total_routed {
            return Err(ContractError::Code(ErrorCode::ValidationError));
        }
        if operator_quality_score > 10_000 {
            return Err(ContractError::Code(ErrorCode::ValidationError));
        }
        let record = AnchorReputationRecord {
            anchor,
            total_routed,
            successful_routed,
            operator_quality_score,
            uptime_ticks,
            total_ticks,
            updated_at: env.clock.timestamp,
        };
        env.routing.reputations.set(anchor, record);
        env.publish(Event::ReputationUpdated(anchor));
        Ok(())
    }

    /// The reputation record of an anchor.
    pub fn get_anchor_reputation(env: &Ledger, anchor: Address) -> (r: Option<
        AnchorReputationRecord,
    >)
        ensures
            r == (if env.routing.reputations@.contains_key(anchor) {
                Some(env.routing.reputations@[anchor])
            } else {
                None
            }),
    {
        match env.routing.reputations.get(&anchor) {
            Some(record) => Some(*record),
            None => None,
        }
    }

    /// Replaces the weights of the parts of a reputation. They must be positive
    /// and add up to a thousand.
    pub fn set_reputation_weights(
        env: &mut Ledger,
        success_rate_weight: u32,
        uptime_weight: u32,
        operator_quality_weight: u32,
    ) -> (r: Result<(), ContractError>)
        ensures
            weights_outcome(
                *old(env),
                *final(env),
                success_rate_weight,
                uptime_weight,
                operator_quality_weight,
                r,
            ),
    {
        if let Err(e) = env.require_admin() {
            return Err(e);
        }
        let weights = ReputationWeights {
            success_rate_weight,
            uptime_weight,
            operator_quality_weight,
        };
        if !weights.is_valid() {
            return Err(ContractError::Code(ErrorCode::InvalidWeights));
        }
        env.routing.weights = Some(weights);
        Ok(())
    }

    /// The weights in force.
    pub fn get_reputation_weights(env: &Ledger) -> (w: ReputationWeights)
        ensures
            w == weights_in(*env),
    {
        match env.routing.weights {
            Some(w) => w,
            None => ReputationWeights::default_weights(),
        }
    }

    /// The reputation of an anchor, given the score that its record comes to
    /// under the weights in force; zero where it has no record.
    pub fn get_anchor_composite_reputation(env: &Ledger, anchor: Address, score: u32) -> (r: u32)
        ensures
            r == composite_of(*env, anchor, score),
    {
        if env.routing.reputations.has(&anchor) {
            score
        } else {
            0
        }
    }

    /// All anchors by reputation: those with a record first, highest score
    /// first, and of equals the smaller encoded address first. `scores` holds
    /// the score of each anchor of the list.
    pub fn rank_anchors_by_reputation(env: &Ledger, scores: &Vec<u32>) -> (r: Vec<Address>)
        ensures
            is_reputation_ranking(*env, scores@, r@),
    {
        let n: usize = env.routing.anchors.len();
        let mut standings: Vec<Standing> = Vec::new();
        let mut i: usize = 0;
        while i < n
            invariant
                0 <= i <= n,
                n == env.routing.anchors@.len(),
                standings@.len() == i,
                forall|j: int| 0 <= j < i ==> stands(*env, #[trigger] standings@[j], scores@, j),
            decreases n - i,
        {
            let anchor = env.routing.anchors[i];
            let recorded = env.routing.reputations.has(&anchor);
            let score: u32 = if recorded && i < scores.len() {
                scores[i]
            } else {
                0
            };
            let key = anchor.to_xdr();
            standings.push(Standing { recorded, score, key });
            i = i + 1;
        }
        let order = sorted_order(&standings);
        let mut result: Vec<Address> = Vec::new();
        let mut k: usize = 0;
        while k < n
            invariant
                0 <= k <= n,
                n == env.routing.anchors@.len(),
                order@.len() == n,
                forall|j: int| 0 <= j < n ==> (#[trigger] order@[j]) < n,
                result@.len() == k,
                forall|j: int|
                    0 <= j < k ==> #[trigger] result@[j] == env.routing.anchors@[order@[j] as int],
            decreases n - k,
        {
            result.push(env.routing.anchors[order[k]]);
            k = k + 1;
        }
        assert(is_sorted_order(standings@, order@));
        result
    }

    /// Stores a policy that names a strategy for a part of the day. Ids count
    /// up from one.
    pub fn register_timed_routing_policy(
        env: &mut Ledger,
        name: String,
        strategy_name: String,
        window_start_secs: u32,
        window_end_secs: u32,
        priority: u32,
    ) -> (r: Result<u64, ContractError>)
        requires
            old(env).routing.policy_count < u64::MAX,
        ensures
            follows(
                r,
                timed_policy_refusal(
                    *old(env),
                    strategy_name@,
                    window_start_secs,
                    window_end_secs,
                ),
            ),
            r is Err ==> *final(env) == *old(env),
            r is Ok ==> timed_policy_added(
                *old(env),
                *final(env),
                name,
                strategy_name,
                window_start_secs,
                window_end_secs,
                priority,
                r->Ok_0,
            ),
    {
        if let Err(e) = env.require_admin() {
            return Err(e);
        }
        if is_blank(&strategy_name) {
            return Err(ContractError::Code(ErrorCode::ValidationError));
        }
        if window_start_secs >= SECS_PER_DAY || window_end_secs >= SECS_PER_DAY {
            return Err(ContractError::Code(ErrorCode::ValidationError));
        }
        let next_id: u64 = env.routing.policy_count + 1;
        let policy = TimedRoutingPolicy {
            policy_id: next_id,
            name,
            strategy_name,
            window: RoutingTimeWindow { window_start_secs, window_end_secs },
            priority,
            enabled: true,
        };
        env.routing.policies.set(next_id, policy);
        env.routing.policy_count = next_id;
        env.publish(Event::TimedPolicyAdded(next_id));
        Ok(next_id)
    }

    /// Switches a timed policy on or off.
    pub fn set_timed_policy_enabled(env: &mut Ledger, policy_id: u64, enabled: bool) -> (r: Result<
        (),
        ContractError,
    >)
        ensures
            follows(r, policy_switch_refusal(*old(env), policy_id)),
            r is Err ==> *final(env) == *old(env),
            r is Ok ==> timed_policy_switched(*old(env), *final(env), policy_id, enabled),
    {
        if let Err(e) = env.require_admin() {
            return Err(e);
        }
        match env.routing.policies.get_mut(&policy_id) {
            Some(policy) => {
                policy.enabled = enabled;
                Ok(())
            },
            None => Err(ContractError::Code(ErrorCode::ValidationError)),
        }
    }

    /// The timed policy with a given id.
    pub fn get_timed_routing_policy(env: &Ledger, policy_id: u64) -> (r: Option<
        TimedRoutingPolicy,
    >)
        ensures
            r == (if env.routing.policies@.contains_key(policy_id) {
                Some(env.routing.policies@[policy_id])
            } else {
                None
            }),
    {
        match env.routing.policies.get(&policy_id) {
            Some(policy) => Some(policy.clone()),
            None => None,
        }
    }

    /// The strategy named by the policy to go by at a time: of the enabled
    /// policies whose window holds the time of day the one with the smallest
    /// priority number, and of equals the one with the smallest id.
    pub fn get_active_routing_policy(env: &Ledger, unix_timestamp: u64) -> (r: Option<String>)
        ensures
            is_strategy_at(*env, unix_timestamp, r),
    {
        let time_of_day: u32 = (unix_timestamp % 86_400) as u32;
        let count: u64 = env.routing.policy_count;
        let mut best: Option<(u32, u64)> = None;
        let mut id: u64 = 0;
        while id < count
            invariant
                0 <= id <= count,
                match best {
                    Some(b) => is_active_policy(*env, b.1, time_of_day, id) && b.0
                        == env.routing.policies@[b.1].priority,
                    None => forall|other: u64|
                        1 <= other <= id ==> !#[trigger] in_force(*env, other, time_of_day),
                },
            decreases count - id,
        {
            id = id + 1;
            if let Some(policy) = env.routing.policies.get(&id) {
                if policy.enabled && policy.window.is_active(time_of_day) {
                    let better = match best {
                        None => true,
                        Some(b) => policy.priority < b.0,
                    };
                    if better {
                        best = Some((policy.priority, id));
                    }
                }
            }
        }
        match best {
            None => None,
            Some(b) => match env.routing.policies.get(&b.1) {
                Some(policy) => {
                    assert(is_active_policy(*env, b.1, time_of_day, count));
                    Some(policy.strategy_name.clone())
                },
                None => None,
            },
        }
    }

    /// Stores the routing profile of a network. The default profile is the one
    /// stored as default last.
    pub fn register_network_routing_profile(
        env: &mut Ledger,
        network_name: String,
        default_strategy: String,
        fee_weight: u32,
        speed_weight: u32,
        reputation_weight: u32,
        min_reputation: u32,
        is_default: bool,
    ) -> (r: Result<(), ContractError>)
        ensures
            follows(r, profile_store_refusal(
                *old(env),
                network_name,
                default_strategy,
                fee_weight,
                speed_weight,
                reputation_weight,
            )),
            r is Err ==> *final(env) == *old(env),
            r is Ok ==> profile_stored(
                *old(env),
                *final(env),
                network_name,
                default_strategy,
                fee_weight,
                speed_weight,
                reputation_weight,
                min_reputation,
                is_default,
            ),
    {
        if let Err(e) = env.require_admin() {
            return Err(e);
        }
        if is_blank(&network_name) {
            return Err(ContractError::Code(ErrorCode::ValidationError));
        }
        if is_blank(&default_strategy) {
            return Err(ContractError::Code(ErrorCode::ValidationError));
        }
        if let Err(e) = validate_weights(fee_weight, speed_weight, reputation_weight) {
            return Err(e);
        }
        let profile = NetworkRoutingProfile {
            network_name: network_name.clone(),
            default_strategy,
            fee_weight,
            speed_weight,
            reputation_weight,
            min_reputation,
            is_default,
        };
        if is_default {
            env.routing.default_network = Some(network_name.clone());
        }
        env.routing.profiles.set(network_name.clone(), profile);
        env.publish(Event::NetworkProfileSet(network_name));
        Ok(())
    }

    /// Sets the active network.
    pub fn set_active_network(env: &mut Ledger, network_name: String) -> (r: Result<
        (),
        ContractError,
    >)
        ensures
            follows(r, network_refusal(*old(env), network_name)),
            r is Err ==> *final(env) == *old(env),
            r is Ok ==> network_activated(*old(env), *final(env), network_name),
    {
        if let Err(e) = env.require_admin() {
            return Err(e);
        }
        if is_blank(&network_name) {
            return Err(ContractError::Code(ErrorCode::ValidationError));
        }
        env.routing.active_network = Some(network_name);
        Ok(())
    }

    /// The active network.
    pub fn get_active_network(env: &Ledger) -> (r: &Option<String>)
        ensures
            *r == env.routing.active_network,
    {
        &env.routing.active_network
    }

    /// The routing profile of a network.
    pub fn get_network_routing_profile(env: &Ledger, network_name: String) -> (r: Option<
        &NetworkRoutingProfile,
    >)
        ensures
            match r {
                Some(p) => env.routing.profiles@.contains_key(network_name@) && *p
                    == env.routing.profiles@[network_name@],
                None => !env.routing.profiles@.contains_key(network_name@),
            },
    {
        env.routing.profiles.get(&network_name)
    }

    /// The routing profile to go by.
    pub fn get_routing_profile(env: &Ledger) -> (r: Option<&NetworkRoutingProfile>)
        ensures
            match r {
                Some(p) => profile_in(*env) == Some(*p),
                None => profile_in(*env) is None,
            },
    {
        if let Some(active_name) = &env.routing.active_network {
            if let Some(profile) = env.routing.profiles.get(active_name) {
                return Some(profile);
            }
        }
        if let Some(name) = &env.routing.default_network {
            if let Some(profile) = env.routing.profiles.get(name) {
                if profile.is_default {
                    return Some(profile);
                }
            }
        }
        None
    }
}

/// At most one policy is the one to go by at a time of day.
pub proof fn the_active_policy_is_unique(env: Ledger, a: u64, b: u64, time_of_day: u32, count: u64)
    requires
        is_active_policy(env, a, time_of_day, count),
        is_active_policy(env, b, time_of_day, count),
    ensures
        a == b,
{
    assert(precedes(env, a, b));
    assert(precedes(env, b, a));
}

/// The profile of the active network takes precedence over the default one.
pub proof fn the_active_network_wins(env: Ledger, name: String)
    requires
        env.routing.active_network == Some(name),
        env.routing.profiles@.contains_key(name@),
    ensures
        profile_in(env) == Some(env.routing.profiles@[name@]),
{
}

} // verus!
