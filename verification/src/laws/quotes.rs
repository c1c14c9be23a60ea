//! Laws of quotes.
use crate::address::Address;
use crate::contract::ledger::{ContractError, Ledger, QuoteState};
use crate::contract::quotes::{
    accept_refusal, asset_refusal, code_refusal, fee_refusal, is_invalidated, is_live,
    limits_refusal, migrate_all, migration_of, quote_announced, quote_refusal, quote_stored,
    terms_refusal, QuoteMigration,
};
use crate::contract::routing::is_candidate;
use crate::contract::types::{AssetInfo, Quote, QuoteLifecycleState, RoutingRequest};
use crate::contract::events::Event;
use crate::errors::ErrorCode;
use vstd::prelude::*;

verus! {

/// A text is taken as an asset code exactly where it has one to twelve
/// characters, all of them letters or digits.
pub proof fn asset_codes_are_short_and_plain(s: Seq<char>)
    ensures
        code_refusal(s) is None <==> 1 <= s.len() <= 12 && forall|i: int|
            0 <= i < s.len() ==> 'a' <= (#[trigger] s[i]) <= 'z' || 'A' <= s[i] <= 'Z' || '0' <= s[i]
                <= '9',
        code_refusal(s) is Some ==> code_refusal(s) == Some(
            ContractError::Code(ErrorCode::InvalidAssetCode),
        ),
{
}

/// A fee is taken up to the whole, a range of amounts where its end is not below
/// its start or is zero.
pub proof fn fees_and_ranges_are_sound(fee: u32, min_amount: u64, max_amount: u64)
    ensures
        fee <= 10_000 ==> fee_refusal(fee) is None,
        fee > 10_000 ==> fee_refusal(fee) == Some(ContractError::Code(ErrorCode::InvalidQuote)),
        max_amount == 0 || min_amount <= max_amount ==> limits_refusal(min_amount, max_amount) is None,
        max_amount != 0 && min_amount > max_amount ==> limits_refusal(min_amount, max_amount)
            == Some(ContractError::Code(ErrorCode::InvalidQuote)),
{
}

/// A quote is taken exactly where both assets have codes, the fee is not above
/// the whole, the range of amounts is not empty, and it runs out later than now
/// but within thirty days. What is wrong with a code is said first.
pub proof fn quotes_have_sound_terms(
    now: u64,
    base_asset: Seq<char>,
    quote_asset: Seq<char>,
    fee: u32,
    minimum_amount: u64,
    maximum_amount: u64,
    valid_until: u64,
)
    ensures
        ({
            let r = terms_refusal(
                now,
                base_asset,
                quote_asset,
                fee,
                minimum_amount,
                maximum_amount,
                valid_until,
            );
            let codes = 1 <= base_asset.len() <= 12 && 1 <= quote_asset.len() <= 12 && (forall|i: int|
                0 <= i < base_asset.len() ==> 'a' <= (#[trigger] base_asset[i]) <= 'z' || 'A'
                    <= base_asset[i] <= 'Z' || '0' <= base_asset[i] <= '9') && (forall|i: int|
                0 <= i < quote_asset.len() ==> 'a' <= (#[trigger] quote_asset[i]) <= 'z' || 'A'
                    <= quote_asset[i] <= 'Z' || '0' <= quote_asset[i] <= '9');
            &&& r is None <==> codes && fee <= 10_000 && (maximum_amount == 0 || minimum_amount
                <= maximum_amount) && now < valid_until <= now + 2_592_000
            &&& !codes ==> r == Some(ContractError::Code(ErrorCode::InvalidAssetCode))
            &&& codes && r is Some ==> r == Some(ContractError::Code(ErrorCode::InvalidQuote))
        }),
{
}

/// An asset record is taken exactly where its code, its two fees and its two
/// ranges are sound.
pub proof fn assets_have_sound_terms(a: AssetInfo)
    ensures
        asset_refusal(a) is None <==> {
            &&& 1 <= a.code@.len() <= 12
            &&& forall|i: int|
                0 <= i < a.code@.len() ==> 'a' <= (#[trigger] a.code@[i]) <= 'z' || 'A' <= a.code@[i]
                    <= 'Z' || '0' <= a.code@[i] <= '9'
            &&& a.deposit_fee_percent <= 10_000
            &&& a.withdrawal_fee_percent <= 10_000
            &&& a.deposit_max_amount == 0 || a.deposit_min_amount <= a.deposit_max_amount
            &&& a.withdrawal_max_amount == 0 || a.withdrawal_min_amount <= a.withdrawal_max_amount
        },
{
}

/// A quote gets the next number and becomes the latest of its anchor; it is
/// active, and every other quote stays what it was.
pub proof fn quotes_are_numbered_and_kept(
    before: QuoteState,
    after: QuoteState,
    quote: Quote,
    other: Address,
    id: u64,
)
    requires
        quote_stored(before, after, quote),
    ensures
        quote.quote_id == before.count + 1,
        after.count == quote.quote_id,
        after.records@.contains_key((quote.anchor, quote.quote_id)),
        after.records@[(quote.anchor, quote.quote_id)] == quote,
        after.latest@.contains_key(quote.anchor),
        after.latest@[quote.anchor] == quote.quote_id,
        after.anchors@[quote.quote_id] == quote.anchor,
        after.lifecycle@[(quote.anchor, quote.quote_id)] == QuoteLifecycleState::Active,
        after.index@.len() == before.index@.len() + 1,
        after.index@.last() == quote.quote_id,
        (other, id) != (quote.anchor, quote.quote_id) ==> {
            &&& after.records@.contains_key((other, id)) == before.records@.contains_key((other, id))
            &&& after.records@[(other, id)] == before.records@[(other, id)]
            &&& after.lifecycle@.contains_key((other, id)) == before.lifecycle@.contains_key(
                (other, id),
            )
            &&& after.lifecycle@[(other, id)] == before.lifecycle@[(other, id)]
        },
        other != quote.anchor ==> after.latest@.contains_key(other) == before.latest@.contains_key(
            other,
        ) && after.latest@[other] == before.latest@[other],
        after.legacy == before.legacy,
        after.migration_cursor == before.migration_cursor,
{
}

/// The announcement of a quote carries its number, its anchor, its assets, its
/// rate, its end and its reason.
pub proof fn quotes_are_announced_as_stored(q: Quote)
    ensures
        quote_announced(q) matches Event::QuoteSubmitted(e) && {
            &&& e.quote_id == q.quote_id
            &&& e.anchor == q.anchor
            &&& e.base_asset == q.base_asset
            &&& e.quote_asset == q.quote_asset
            &&& e.rate == q.rate
            &&& e.valid_until == q.valid_until
            &&& e.routing_reason == q.routing_reason
        },
{
}

/// A quote can be accepted exactly where the receiver has signed the call, it is
/// stored, was not invalidated and has not run out, and the receiver's latest
/// compliance check has passed where that is asked for. Each hindrance has an
/// error of its own, and the first one counts.
pub proof fn acceptances_are_earned(
    env: Ledger,
    receiver: Address,
    anchor: Address,
    quote_id: u64,
    require_compliance: bool,
)
    ensures
        ({
            let r = accept_refusal(env, receiver, anchor, quote_id, require_compliance);
            let signed = env.auth.all || env.auth.signers@.contains(receiver);
            let stored = env.quotes.records@.contains_key((anchor, quote_id));
            let quote = env.quotes.records@[(anchor, quote_id)];
            let void = env.quotes.lifecycle@.contains_key((anchor, quote_id))
                && env.quotes.lifecycle@[(anchor, quote_id)] == QuoteLifecycleState::Invalidated;
            let over = quote.valid_until <= env.clock.timestamp;
            let passed = env.kyc.latest@.contains_key((receiver, "kyc"@))
                && env.kyc.latest@[(receiver, "kyc"@)].result == 1;
            &&& r is None <==> signed && stored && !void && !over && (require_compliance ==> passed)
            &&& !signed ==> r == Some(ContractError::AuthRequired(receiver))
            &&& signed && !stored ==> r == Some(ContractError::Code(ErrorCode::QuoteNotFound))
            &&& signed && stored && void ==> r == Some(ContractError::Code(ErrorCode::InvalidQuote))
            &&& signed && stored && !void && over ==> r == Some(
                ContractError::Code(ErrorCode::QuoteExpired),
            )
            &&& signed && stored && !void && !over && require_compliance && !passed ==> r == Some(
                ContractError::Code(ErrorCode::ComplianceNotMet),
            )
        }),
{
}

/// Once it was invalidated a quote can neither be accepted nor routed to, and it
/// leaves the index at the next sweep; no other quote is touched.
pub proof fn invalidated_quotes_are_of_no_use(
    before: Ledger,
    after: Ledger,
    anchor: Address,
    quote_id: u64,
    receiver: Address,
    request: RoutingRequest,
    min_reputation: u32,
    other: Address,
    id: u64,
)
    requires
        after.quotes.lifecycle@ == before.quotes.lifecycle@.insert(
            (anchor, quote_id),
            QuoteLifecycleState::Invalidated,
        ),
        after.quotes.anchors@.contains_key(quote_id) ==> after.quotes.anchors@[quote_id] == anchor,
    ensures
        accept_refusal(after, receiver, anchor, quote_id, false) is Some,
        after.quotes.latest@.contains_key(anchor) && after.quotes.records@[(
            anchor,
            after.quotes.latest@[anchor],
        )].quote_id == quote_id ==> !is_candidate(after, anchor, request, min_reputation),
        !is_live(after, quote_id),
        (other, id) != (anchor, quote_id) ==> is_invalidated(after, other, id) == is_invalidated(
            before,
            other,
            id,
        ),
{
}

/// A quote is found exactly where it is stored under its anchor and number.
pub proof fn stored_quotes_are_found(env: Ledger, anchor: Address, quote_id: u64)
    ensures
        quote_refusal(env, anchor, quote_id) is None <==> env.quotes.records@.contains_key(
            (anchor, quote_id),
        ),
        quote_refusal(env, anchor, quote_id) is Some ==> quote_refusal(env, anchor, quote_id) == Some(
            ContractError::Code(ErrorCode::QuoteNotFound),
        ),
        is_invalidated(env, anchor, quote_id) <==> env.quotes.lifecycle@.contains_key(
            (anchor, quote_id),
        ) && env.quotes.lifecycle@[(anchor, quote_id)] == QuoteLifecycleState::Invalidated,
{
}

/// A sweep of the index keeps a number exactly where its quote is stored, has not
/// run out and was not invalidated.
pub proof fn sweeps_keep_what_is_of_use(env: Ledger, quote_id: u64)
    ensures
        is_live(env, quote_id) <==> env.quotes.anchors@.contains_key(quote_id) && {
            let anchor = env.quotes.anchors@[quote_id];
            &&& env.quotes.records@.contains_key((anchor, quote_id))
            &&& env.clock.timestamp < env.quotes.records@[(anchor, quote_id)].valid_until
            &&& !(env.quotes.lifecycle@.contains_key((anchor, quote_id))
                && env.quotes.lifecycle@[(anchor, quote_id)] == QuoteLifecycleState::Invalidated)
        },
{
}

proof fn all_terms_kept(
    start: QuoteMigration,
    anchors: Map<u64, Address>,
    ids: Seq<u64>,
    resume_after: u64,
    batch: u32,
    key: (Address, u64),
)
    ensures
        ({
            let m = migrate_all(start, anchors, ids, resume_after, batch);
            let q = m.records[key];
            &&& start.records.contains_key(key) ==> {
                let was = start.records[key];
                &&& m.records.contains_key(key)
                &&& q.quote_id == was.quote_id
                &&& q.anchor == was.anchor
                &&& q.base_asset == was.base_asset
                &&& q.quote_asset == was.quote_asset
                &&& q.rate == was.rate
                &&& q.fee_percentage == was.fee_percentage
                &&& q.minimum_amount == was.minimum_amount
                &&& q.maximum_amount == was.maximum_amount
                &&& q.valid_until == was.valid_until
                &&& q == was || (was.schema_version < 2 && q.schema_version == 2
                    && q.routing_reason is None)
            }
            &&& !start.records.contains_key(key) && m.records.contains_key(key) ==> {
                let was = start.legacy[key];
                &&& start.legacy.contains_key(key)
                &&& was.schema_version < 2
                &&& !m.legacy.contains_key(key)
                &&& q.quote_id == was.quote_id
                &&& q.anchor == was.anchor
                &&& q.base_asset == was.base_asset
                &&& q.quote_asset == was.quote_asset
                &&& q.rate == was.rate
                &&& q.fee_percentage == was.fee_percentage
                &&& q.minimum_amount == was.minimum_amount
                &&& q.maximum_amount == was.maximum_amount
                &&& q.valid_until == was.valid_until
                &&& q.schema_version == 2
                &&& q.routing_reason is None
            }
            &&& m.legacy.contains_key(key) ==> start.legacy.contains_key(key) && m.legacy[key]
                == start.legacy[key]
            &&& start.legacy.contains_key(key) && !m.legacy.contains_key(key)
                ==> m.records.contains_key(key)
        }),
    decreases ids.len(),
{
    if ids.len() > 0 {
        all_terms_kept(start, anchors, ids.drop_last(), resume_after, batch, key);
    }
}

/// Migrating quotes changes nothing of what was quoted: every stored quote stays
/// with its number, anchor, assets, rate, fee, amounts and end. One that was
/// rewritten is of the second schema and has no reason, and every quote in the
/// old form is still there, or in the new form.
pub proof fn migration_keeps_the_terms(q: QuoteState, batch: u32, key: (Address, u64))
    ensures
        ({
            let m = migration_of(q, batch);
            let now = m.records[key];
            &&& q.records@.contains_key(key) ==> {
                let was = q.records@[key];
                &&& m.records.contains_key(key)
                &&& now.quote_id == was.quote_id
                &&& now.anchor == was.anchor
                &&& now.base_asset == was.base_asset
                &&& now.quote_asset == was.quote_asset
                &&& now.rate == was.rate
                &&& now.fee_percentage == was.fee_percentage
                &&& now.minimum_amount == was.minimum_amount
                &&& now.maximum_amount == was.maximum_amount
                &&& now.valid_until == was.valid_until
                &&& now == was || (was.schema_version < 2 && now.schema_version == 2
                    && now.routing_reason is None)
            }
            &&& !q.records@.contains_key(key) && m.records.contains_key(key) ==> {
                let was = q.legacy@[key];
                &&& q.legacy@.contains_key(key)
                &&& was.schema_version < 2
                &&& !m.legacy.contains_key(key)
                &&& now.quote_id == was.quote_id
                &&& now.anchor == was.anchor
                &&& now.base_asset == was.base_asset
                &&& now.quote_asset == was.quote_asset
                &&& now.rate == was.rate
                &&& now.fee_percentage == was.fee_percentage
                &&& now.minimum_amount == was.minimum_amount
                &&& now.maximum_amount == was.maximum_amount
                &&& now.valid_until == was.valid_until
                &&& now.schema_version == 2
                &&& now.routing_reason is None
            }
            &&& m.legacy.contains_key(key) ==> q.legacy@.contains_key(key) && m.legacy[key]
                == q.legacy@[key]
            &&& q.legacy@.contains_key(key) && !m.legacy.contains_key(key) ==> m.records.contains_key(
                key,
            )
        }),
{
    let start = crate::contract::quotes::migration_start(q);
    all_terms_kept(start, q.anchors@, q.index@, start.last, batch, key);
}

/// Migrating with room for every number in the index, from the start and with
/// numbers that ascend from one, leaves no indexed quote of the first schema and
/// needs no further call.
pub proof fn one_large_batch_migrates_all(q: QuoteState, batch: u32, i: int)
    requires
        q.migration_cursor is None,
        q.index@.len() < batch,
        forall|a: int, b: int| 0 <= a < b < q.index@.len() ==> q.index@[a] < q.index@[b],
        q.index@.len() > 0 ==> q.index@[0] > 0,
        0 <= i < q.index@.len(),
    ensures
        ({
            let m = migration_of(q, batch);
            let id = q.index@[i];
            let key = (q.anchors@[id], id);
            &&& !m.stopped
            &&& q.anchors@.contains_key(id) && m.records.contains_key(key)
                ==> m.records[key].schema_version >= 2
            &&& q.anchors@.contains_key(id) && !m.records.contains_key(key) && m.legacy.contains_key(
                key,
            ) ==> m.legacy[key].schema_version >= 2
        }),
{
    let start = crate::contract::quotes::migration_start(q);
    large_batches_do_not_stop(start, q.anchors@, q.index@, start.last, batch);
    assert forall|j: int| 0 <= j < q.index@.len() && q.index@[j] <= 0 implies false by {
        assert(q.index@[0] <= q.index@[j]);
    }
    crate::contract::quotes::migration_reaches_every_quote(
        start,
        q.anchors@,
        q.index@,
        start.last,
        batch,
    );
    assert(crate::contract::quotes::is_current(migration_of(q, batch), q.anchors@, q.index@[i]));
}

proof fn large_batches_do_not_stop(
    start: QuoteMigration,
    anchors: Map<u64, Address>,
    ids: Seq<u64>,
    resume_after: u64,
    batch: u32,
)
    requires
        !start.stopped,
        start.migrated == 0,
        ids.len() < batch,
    ensures
        !migrate_all(start, anchors, ids, resume_after, batch).stopped,
        migrate_all(start, anchors, ids, resume_after, batch).migrated <= ids.len(),
    decreases ids.len(),
{
    if ids.len() > 0 {
        large_batches_do_not_stop(start, anchors, ids.drop_last(), resume_after, batch);
    }
}

} // verus!
