//! Laws of what changes of quotes, services and policies leave behind.
use crate::address::Address;
use crate::contract::events::Event;
use crate::contract::ledger::{admin_refusal, AdminOutcome, ContractError, Ledger};
use crate::contract::policies::{
    in_force, network_activated, network_refusal, policy_switch_refusal, profile_in,
    profile_store_refusal, profile_stored, reputation_refusal, reputation_set, timed_policy_added,
    timed_policy_switched,
};
use crate::contract::quotes::{
    accept_refusal, invalidate_refusal, is_invalidated, is_live, plain_quote_submitted,
    quote_accepted, quote_invalidated, quote_received, quote_submitted, quotes_purged,
    reasoned_quote_refusal, receive_refusal, submit_quote_refusal, terms_refusal,
};
use crate::contract::routing::is_candidate;
use crate::contract::services::{
    is_retired, retire_refusal, service_disabled, service_enabled, service_retired,
    service_unretired, services_rolled_back, snapshot_refusal, snapshot_taken, toggle_refusal,
    toggles_of, unretire_refusal,
};
use crate::contract::types::{Quote, RoutingRequest};
use crate::errors::ErrorCode;
use vstd::prelude::*;

verus! {

/// A quote is taken exactly from an anchor that has signed the call, on sound terms,
/// with a reason or without.
pub proof fn quotes_are_signed(
    env: Ledger,
    anchor: Address,
    base: String,
    quote: String,
    fee: u32,
    min: u64,
    max: u64,
    until: u64,
)
    ensures
        ({
            let r = submit_quote_refusal(env, anchor, base, quote, fee, min, max, until);
            let signed = env.auth.all || env.auth.signers@.contains(anchor);
            let terms = terms_refusal(
                env.clock.timestamp,
                base@,
                quote@,
                fee,
                min,
                max,
                until,
            );
            &&& r is None <==> signed && terms is None
            &&& !signed ==> r == Some(ContractError::AuthRequired(anchor))
            &&& signed ==> r == terms
            &&& reasoned_quote_refusal(env, anchor, base, quote, fee, min, max, until) == r
        }),
{
}

/// A submitted quote reads back with every term as it was given, is the latest of
/// its anchor, can be received and is announced.
pub proof fn submitted_quotes_keep_their_terms(
    before: Ledger,
    after: Ledger,
    anchor: Address,
    base: String,
    quote: String,
    rate: u64,
    fee: u32,
    min: u64,
    max: u64,
    until: u64,
    reason: Option<String>,
    id: u64,
    receiver: Address,
)
    requires
        quote_submitted(
            before,
            after,
            anchor,
            base,
            quote,
            rate,
            fee,
            min,
            max,
            until,
            reason,
            id,
        ) || (reason is None && plain_quote_submitted(
            before,
            after,
            anchor,
            base,
            quote,
            rate,
            fee,
            min,
            max,
            until,
            id,
        )),
        after.auth.all || after.auth.signers@.contains(receiver),
    ensures
        ({
            let q = after.quotes.records@[(anchor, id)];
            &&& after.quotes.records@.contains_key((anchor, id))
            &&& q.quote_id == id
            &&& q.anchor == anchor
            &&& q.base_asset == base
            &&& q.quote_asset == quote
            &&& q.rate == rate
            &&& q.fee_percentage == fee
            &&& q.minimum_amount == min
            &&& q.maximum_amount == max
            &&& q.valid_until == until
            &&& q.routing_reason == reason
            &&& after.quotes.latest@[anchor] == id
            &&& receive_refusal(after, receiver, anchor, id) is None
            &&& after.clock.timestamp < until ==> accept_refusal(
                after,
                receiver,
                anchor,
                id,
                false,
            ) is None
            &&& after.events@.len() == before.events@.len() + 1
            &&& after.events@.last() is QuoteSubmitted
            &&& after.events@.last()->QuoteSubmitted_0.rate == rate
            &&& after.events@.last()->QuoteSubmitted_0.anchor == anchor
            &&& after.events@.last()->QuoteSubmitted_0.quote_id == id
        }),
        after.kyc == before.kyc,
        after.routing == before.routing,
{
}

/// A quote is received exactly by one who has signed the call, where it is stored
/// and was not invalidated. What is handed over is the stored quote; receiving and
/// accepting change nothing but what is announced, with the receiver.
pub proof fn received_quotes_are_the_stored_ones(
    before: Ledger,
    after: Ledger,
    receiver: Address,
    anchor: Address,
    id: u64,
    out: Quote,
)
    ensures
        ({
            let r = receive_refusal(before, receiver, anchor, id);
            let signed = before.auth.all || before.auth.signers@.contains(receiver);
            let stored = before.quotes.records@.contains_key((anchor, id));
            let bad = is_invalidated(before, anchor, id);
            &&& r is None <==> signed && stored && !bad
            &&& signed && !stored ==> r == Some(ContractError::Code(ErrorCode::QuoteNotFound))
            &&& signed && stored && bad ==> r == Some(ContractError::Code(ErrorCode::InvalidQuote))
        }),
        quote_received(before, after, receiver, anchor, id, out) || quote_accepted(
            before,
            after,
            receiver,
            anchor,
            id,
            out,
        ) ==> {
            &&& out == before.quotes.records@[(anchor, id)]
            &&& after.quotes == before.quotes
            &&& after.events@.len() == before.events@.len() + 1
        },
        quote_received(before, after, receiver, anchor, id, out) ==> {
            let e = after.events@.last();
            &&& e is QuoteReceived
            &&& e->QuoteReceived_0.receiver == receiver
            &&& e->QuoteReceived_0.quote_id == id
            &&& e->QuoteReceived_0.timestamp == before.clock.timestamp
        },
        quote_accepted(before, after, receiver, anchor, id, out) ==> {
            let e = after.events@.last();
            &&& e is QuoteAccepted
            &&& e->QuoteAccepted_0.receiver == receiver
            &&& e->QuoteAccepted_0.quote_id == id
            &&& e->QuoteAccepted_0.timestamp == before.clock.timestamp
        },
{
}

/// A quote is invalidated by the admin where it is stored; afterwards it can be
/// neither received, accepted nor routed to, while its record and every other quote
/// stay.
pub proof fn invalidated_quotes_are_refused(
    before: Ledger,
    after: Ledger,
    anchor: Address,
    id: u64,
    receiver: Address,
    request: RoutingRequest,
    other: (Address, u64),
)
    ensures
        invalidate_refusal(before, anchor, id) is None <==> admin_refusal(before) is None
            && before.quotes.records@.contains_key((anchor, id)),
        quote_invalidated(before, after, anchor, id) ==> {
            &&& receive_refusal(after, receiver, anchor, id) is Some
            &&& accept_refusal(after, receiver, anchor, id, false) is Some
            &&& after.quotes.records == before.quotes.records
            &&& before.quotes.latest@.contains_key(anchor) && before.quotes.latest@[anchor] == id
                && before.quotes.records@[(anchor, id)].quote_id == id ==> !is_candidate(
                after,
                anchor,
                request,
                0,
            )
            &&& other != (anchor, id) ==> is_invalidated(after, other.0, other.1) == is_invalidated(
                before,
                other.0,
                other.1,
            )
            &&& after.events@ == before.events@.push(Event::QuoteInvalidated(id))
        },
{
}

/// A purge takes numbers out of the index only: those that remain are live, every
/// live one remains, and the records stay.
pub proof fn purges_keep_live_quotes(before: Ledger, after: Ledger, i: int, id: u64)
    requires
        quotes_purged(before, after),
    ensures
        before.quotes.index@.contains(id) && is_live(before, id) ==> after.quotes.index@.contains(
            id,
        ),
        after.quotes.records == before.quotes.records,
        after.quotes.count == before.quotes.count,
        after.quotes.index@.len() <= before.quotes.index@.len(),
        0 <= i < after.quotes.index@.len() ==> is_live(before, after.quotes.index@[i]),
{
    kept_are_live(before.quotes.index@, |id: u64| is_live(before, id), id);
}

proof fn kept_are_live(s: Seq<u64>, keep: spec_fn(u64) -> bool, id: u64)
    ensures
        s.contains(id) && keep(id) ==> s.filter(keep).contains(id),
        s.filter(keep).len() <= s.len(),
        forall|i: int| 0 <= i < s.filter(keep).len() ==> keep(#[trigger] s.filter(keep)[i]),
    decreases s.len(),
{
    reveal(Seq::filter);
    if s.len() > 0 {
        let rest = s.drop_last();
        kept_are_live(rest, keep, id);
        if s.contains(id) && keep(id) {
            let i = choose|i: int| 0 <= i < s.len() && s[i] == id;
            if i < rest.len() {
                assert(rest[i] == id);
                let k = choose|k: int|
                    0 <= k < rest.filter(keep).len() && rest.filter(keep)[k] == id;
                assert(s.filter(keep)[k] == id);
            } else {
                assert(s.filter(keep)[rest.filter(keep).len() as int] == id);
            }
        }
    }
}

/// A service is retired and taken back by its anchor, which has signed the call,
/// where it has services. Retired it is not offered, taken back it is again; the
/// configured services stay.
pub proof fn services_are_retired_by_their_anchor(
    before: Ledger,
    after: Ledger,
    anchor: Address,
    service: u32,
    at: Option<u64>,
    notice: Option<String>,
)
    ensures
        ({
            let signed = before.auth.all || before.auth.signers@.contains(anchor);
            let known = before.services.configured@.contains_key(anchor);
            &&& retire_refusal(before, anchor) is None <==> signed && known
            &&& unretire_refusal(before, anchor) is None <==> signed && known
            &&& !signed ==> retire_refusal(before, anchor) == Some(
                ContractError::AuthRequired(anchor),
            )
        }),
        service_retired(before, after, anchor, service, at, notice) ==> {
            let c = after.services.configured@[anchor];
            &&& is_retired(c.service_retirements@, service)
            &&& c.services == before.services.configured@[anchor].services
            &&& after.events@.last() == Event::ServiceRetired(anchor, service)
        },
        service_unretired(before, after, anchor, service) ==> {
            let c = after.services.configured@[anchor];
            &&& !is_retired(c.service_retirements@, service)
            &&& c.services == before.services.configured@[anchor].services
            &&& after.events@.last() == Event::ServiceUnretired(anchor, service)
        },
{
    crate::contract::services::retiring_takes_effect(
        before.services.configured@[anchor].service_retirements@,
        service,
        at,
        notice,
    );
}

/// A service that was switched on is on and one that was switched off is off; the
/// answer tells whether that was a change.
pub proof fn services_are_switched(
    before: Ledger,
    after: Ledger,
    caller: Address,
    anchor: Address,
    code: u32,
    out: bool,
    other: u32,
)
    ensures
        service_enabled(before, after, caller, anchor, code, out) ==> {
            &&& toggles_of(after, anchor).enabled.contains(code)
            &&& out == !toggles_of(before, anchor).enabled.contains(code)
            &&& !out ==> toggles_of(after, anchor) == toggles_of(before, anchor)
        },
        service_disabled(before, after, caller, anchor, code, out) ==> {
            &&& toggles_of(after, anchor).disabled.contains(code)
            &&& out == !toggles_of(before, anchor).disabled.contains(code)
            &&& !out ==> toggles_of(after, anchor) == toggles_of(before, anchor)
        },
        other != code && (service_enabled(before, after, caller, anchor, code, out)
            || service_disabled(before, after, caller, anchor, code, out)) ==> {
            let (s, t) = (toggles_of(before, anchor), toggles_of(after, anchor));
            s.enabled.contains(other) == t.enabled.contains(other) && s.disabled.contains(other)
                == t.disabled.contains(other)
        },
{
    let s = toggles_of(before, anchor);
    if other != code {
        crate::laws::services::switching_touches_one_service(s, code, other);
    } else {
        let another: u32 = if code == 0 {
            1
        } else {
            0
        };
        crate::laws::services::switching_touches_one_service(s, code, another);
    }
}

/// A snapshot reads back as it was taken, under the next number, and rolling back
/// to it switches exactly its services on; without such a snapshot nothing changes
/// but the log.
pub proof fn snapshots_are_restored(
    before: Ledger,
    taken: Ledger,
    after: Ledger,
    caller: Address,
    anchor: Address,
    services: Vec<u32>,
    description: String,
    id: u64,
    found: bool,
)
    ensures
        snapshot_refusal(before, caller, description) is None <==> toggle_refusal(
            before,
            caller,
        ) is None && description@.len() > 0,
        snapshot_taken(before, taken, caller, anchor, services, description, id) ==> {
            let s = taken.services.snapshots@[id];
            &&& id == before.services.snapshot_count + 1
            &&& taken.services.snapshot_count == id
            &&& taken.services.snapshots@.contains_key(id)
            &&& s.anchor == anchor
            &&& s.services == services
            &&& s.description == description
            &&& s.created_at == before.clock.timestamp
            &&& toggles_of(taken, anchor) == toggles_of(before, anchor)
        },
        snapshot_taken(before, taken, caller, anchor, services, description, id)
            && services_rolled_back(taken, after, caller, id, found) ==> {
            &&& found
            &&& toggles_of(after, anchor).enabled == services@
            &&& toggles_of(after, anchor).disabled.len() == 0
            &&& after.admin_log@.last().after == AdminOutcome::Label("rolled_back")
        },
        services_rolled_back(before, after, caller, id, found)
            && !before.services.snapshots@.contains_key(id) ==> {
            &&& !found
            &&& after.services == before.services
            &&& after.cache == before.cache
            &&& after.admin_log@.len() == before.admin_log@.len() + 1
        },
{
}

/// A reputation is stored by the admin as it was given; no more can have succeeded
/// than were routed, and the quality is no more than the whole.
pub proof fn reputations_are_stored_as_given(
    before: Ledger,
    after: Ledger,
    anchor: Address,
    total: u64,
    successes: u64,
    quality: u32,
    up: u64,
    ticks: u64,
    other: Address,
)
    ensures
        reputation_refusal(before, total, successes, quality) is None <==> admin_refusal(
            before,
        ) is None && successes <= total && quality <= 10_000,
        reputation_set(before, after, anchor, total, successes, quality, up, ticks) ==> {
            let r = after.routing.reputations@[anchor];
            &&& after.routing.reputations@.contains_key(anchor)
            &&& r.total_routed == total
            &&& r.successful_routed == successes
            &&& r.operator_quality_score == quality
            &&& r.uptime_ticks == up
            &&& r.total_ticks == ticks
            &&& r.updated_at == before.clock.timestamp
            &&& other != anchor ==> after.routing.reputations@.contains_key(other)
                == before.routing.reputations@.contains_key(other)
                && after.routing.reputations@[other] == before.routing.reputations@[other]
            &&& after.events@ == before.events@.push(Event::ReputationUpdated(anchor))
        },
{
}

/// A timed policy is stored under the next number, on, as it was given; switched
/// off it is never in force, switched on again it is where its window holds the
/// time. Other policies stay.
pub proof fn timed_policies_are_stored_and_switched(
    before: Ledger,
    after: Ledger,
    name: String,
    strategy: String,
    start: u32,
    end: u32,
    priority: u32,
    id: u64,
    enabled: bool,
    time: u32,
    other: u64,
)
    ensures
        timed_policy_added(before, after, name, strategy, start, end, priority, id) ==> {
            let p = after.routing.policies@[id];
            &&& id == before.routing.policy_count + 1
            &&& after.routing.policy_count == id
            &&& p.policy_id == id
            &&& p.name == name
            &&& p.strategy_name == strategy
            &&& p.window.window_start_secs == start
            &&& p.window.window_end_secs == end
            &&& p.priority == priority
            &&& start < end && start <= time < end ==> in_force(after, id, time)
            &&& start < end && time >= end ==> !in_force(after, id, time)
            &&& after.events@ == before.events@.push(Event::TimedPolicyAdded(id))
        },
        policy_switch_refusal(before, id) is None <==> admin_refusal(before) is None
            && before.routing.policies@.contains_key(id),
        timed_policy_switched(before, after, id, enabled) ==> {
            let (p, q) = (before.routing.policies@[id], after.routing.policies@[id]);
            &&& !enabled ==> !in_force(after, id, time)
            &&& enabled ==> in_force(after, id, time) == q.window.contains(time)
            &&& q.strategy_name == p.strategy_name
            &&& q.window == p.window
            &&& q.priority == p.priority
        },
        other != id && (timed_policy_switched(before, after, id, enabled) || timed_policy_added(
            before,
            after,
            name,
            strategy,
            start,
            end,
            priority,
            id,
        )) ==> in_force(after, other, time) == in_force(before, other, time),
{
}

/// A profile is stored by the admin with names and weights that add up to a
/// thousand; the default one is what routing goes by where no network is active, and
/// an active network with a profile takes precedence.
pub proof fn profiles_are_stored_and_chosen(
    before: Ledger,
    after: Ledger,
    network: String,
    strategy: String,
    fee: u32,
    speed: u32,
    reputation: u32,
    min: u32,
    is_default: bool,
)
    ensures
        profile_store_refusal(before, network, strategy, fee, speed, reputation) is None <==> {
            &&& admin_refusal(before) is None
            &&& network@.len() > 0
            &&& strategy@.len() > 0
            &&& fee + speed + reputation == 1000
        },
        profile_stored(
            before,
            after,
            network,
            strategy,
            fee,
            speed,
            reputation,
            min,
            is_default,
        ) ==> {
            let p = after.routing.profiles@[network@];
            &&& after.routing.profiles@.contains_key(network@)
            &&& p.network_name == network
            &&& p.default_strategy == strategy
            &&& p.fee_weight == fee
            &&& p.speed_weight == speed
            &&& p.reputation_weight == reputation
            &&& p.min_reputation == min
            &&& p.is_default == is_default
            &&& is_default && before.routing.active_network is None ==> profile_in(after) == Some(p)
            &&& !is_default ==> after.routing.default_network == before.routing.default_network
            &&& after.routing.active_network == before.routing.active_network
        },
        network_refusal(before, network) is None <==> admin_refusal(before) is None
            && network@.len() > 0,
        network_activated(before, after, network) ==> {
            &&& after.routing.active_network == Some(network)
            &&& before.routing.profiles@.contains_key(network@) ==> profile_in(after) == Some(
                before.routing.profiles@[network@],
            )
        },
{
}

} // verus!
