//! Quotes: submission, retrieval, invalidation and the schema they are stored
//! in.
use crate::address::Address;
use crate::contract::events::{Event, QuoteExpiredEvent, QuoteReceivedEvent, QuoteSubmitEvent};
use crate::contract::kyc::compliance_passed;
use crate::contract::ledger::{
    admin_refusal, auth_refusal, either, follows, refuse_when, AnchorKitContract, ContractError,
    Ledger, QuoteState,
};
use crate::contract::types::{
    copy_text, AssetInfo, Quote, QuoteLifecycleState, QuoteV1, MAX_QUOTE_VALIDITY_SECONDS,
    SCHEMA_V1, SCHEMA_V2,
};
use crate::errors::ErrorCode;
use crate::text::chars_of;
use vstd::prelude::*;

verus! {

/// The largest fee, in hundredths of a percent.
pub const MAX_FEE_PERCENT: u32 = 10_000;

/// The longest asset code.
pub const MAX_CODE_LENGTH: usize = 12;

/// Whether a character is an ASCII letter or digit.
pub open spec fn is_alphanumeric(c: char) -> bool {
    'a' <= c <= 'z' || 'A' <= c <= 'Z' || '0' <= c <= '9'
}

/// Whether a text is an asset code: one to twelve letters or digits.
pub open spec fn is_asset_code(s: Seq<char>) -> bool {
    1 <= s.len() <= MAX_CODE_LENGTH && forall|i: int| 0 <= i < s.len() ==> is_alphanumeric(
        #[trigger] s[i],
    )
}

/// The refusal of a text that is no asset code.
pub open spec fn code_refusal(s: Seq<char>) -> Option<ContractError> {
    refuse_when(!is_asset_code(s), ErrorCode::InvalidAssetCode)
}

/// The refusal of a fee above the whole.
pub open spec fn fee_refusal(fee: u32) -> Option<ContractError> {
    refuse_when(fee > MAX_FEE_PERCENT, ErrorCode::InvalidQuote)
}

/// The refusal of a range whose end lies below its start; an end of zero means
/// no end.
pub open spec fn limits_refusal(min_amount: u64, max_amount: u64) -> Option<ContractError> {
    refuse_when(max_amount != 0 && min_amount > max_amount, ErrorCode::InvalidQuote)
}

/// Refuses a fee above the whole.
pub fn validate_fee_percent(fee: u32) -> (r: Result<(), ContractError>)
    ensures
        follows(r, fee_refusal(fee)),
{
    if fee > MAX_FEE_PERCENT {
        return Err(ContractError::Code(ErrorCode::InvalidQuote));
    }
    Ok(())
}

/// Refuses a range whose end lies below its start.
pub fn validate_amount_limits(min_amount: u64, max_amount: u64) -> (r: Result<(), ContractError>)
    ensures
        follows(r, limits_refusal(min_amount, max_amount)),
{
    if max_amount != 0 && min_amount > max_amount {
        return Err(ContractError::Code(ErrorCode::InvalidQuote));
    }
    Ok(())
}

/// Refuses a text that is no asset code.
pub fn validate_currency_code(code: &String) -> (r: Result<(), ContractError>)
    ensures
        follows(r, code_refusal(code@)),
{
    let chars = chars_of(code.as_str());
    if chars.len() == 0 || chars.len() > MAX_CODE_LENGTH {
        return Err(ContractError::Code(ErrorCode::InvalidAssetCode));
    }
    let mut i: usize = 0;
    while i < chars.len()
        invariant
            0 <= i <= chars@.len(),
            chars@ == code@,
            forall|j: int| 0 <= j < i ==> is_alphanumeric(#[trigger] chars@[j]),
        decreases chars@.len() - i,
    {
        let c = chars[i];
        let letter = ('a' <= c && c <= 'z') || ('A' <= c && c <= 'Z') || ('0' <= c && c <= '9');
        if !letter {
            assert(!is_alphanumeric(code@[i as int]));
            return Err(ContractError::Code(ErrorCode::InvalidAssetCode));
        }
        i = i + 1;
    }
    Ok(())
}

/// The first fault of an asset record.
pub open spec fn asset_refusal(a: AssetInfo) -> Option<ContractError> {
    either(
        code_refusal(a.code@),
        either(
            fee_refusal(a.deposit_fee_percent),
            either(
                fee_refusal(a.withdrawal_fee_percent),
                either(
                    limits_refusal(a.deposit_min_amount, a.deposit_max_amount),
                    limits_refusal(a.withdrawal_min_amount, a.withdrawal_max_amount),
                ),
            ),
        ),
    )
}

/// Refuses an asset record with a bad code, fee or range.
pub fn validate_asset_info(asset: &AssetInfo) -> (r: Result<(), ContractError>)
    ensures
        follows(r, asset_refusal(*asset)),
{
    if let Err(e) = validate_currency_code(&asset.code) {
        return Err(e);
    }
    if let Err(e) = validate_fee_percent(asset.deposit_fee_percent) {
        return Err(e);
    }
    if let Err(e) = validate_fee_percent(asset.withdrawal_fee_percent) {
        return Err(e);
    }
    if let Err(e) = validate_amount_limits(asset.deposit_min_amount, asset.deposit_max_amount) {
        return Err(e);
    }
    validate_amount_limits(asset.withdrawal_min_amount, asset.withdrawal_max_amount)
}

/// The refusal of a quote whose terms are bad: its codes, its fee, its range,
/// or an end of validity that is past or more than thirty days away.
pub open spec fn terms_refusal(
    now: u64,
    base_asset: Seq<char>,
    quote_asset: Seq<char>,
    fee_percentage: u32,
    minimum_amount: u64,
    maximum_amount: u64,
    valid_until: u64,
) -> Option<ContractError> {
    either(
        code_refusal(base_asset),
        either(
            code_refusal(quote_asset),
            either(
                fee_refusal(fee_percentage),
                either(
                    limits_refusal(minimum_amount, maximum_amount),
                    refuse_when(
                        valid_until <= now || valid_until - now > MAX_QUOTE_VALIDITY_SECONDS,
                        ErrorCode::InvalidQuote,
                    ),
                ),
            ),
        ),
    )
}

/// The ledger with a new quote: counted, stored under its anchor and number,
/// active, indexed, and the latest of its anchor.
pub open spec fn quote_stored(before: QuoteState, after: QuoteState, quote: Quote) -> bool {
    let key = (quote.anchor, quote.quote_id);
    &&& quote.quote_id == before.count + 1
    &&& after == (QuoteState {
        count: quote.quote_id,
        records: after.records,
        lifecycle: after.lifecycle,
        index: after.index,
        anchors: after.anchors,
        latest: after.latest,
        ..before
    })
    &&& after.records@ == before.records@.insert(key, quote)
    &&& after.lifecycle@ == before.lifecycle@.insert(key, QuoteLifecycleState::Active)
    &&& after.index@ == before.index@.push(quote.quote_id)
    &&& after.anchors@ == before.anchors@.insert(quote.quote_id, quote.anchor)
    &&& after.latest@ == before.latest@.insert(quote.anchor, quote.quote_id)
}

/// The announcement of a new quote.
pub open spec fn quote_announced(q: Quote) -> Event {
    Event::QuoteSubmitted(
        QuoteSubmitEvent {
            quote_id: q.quote_id,
            anchor: q.anchor,
            base_asset: q.base_asset,
            quote_asset: q.quote_asset,
            rate: q.rate,
            valid_until: q.valid_until,
            routing_reason: q.routing_reason,
        },
    )
}

/// Whether a quote was invalidated.
pub open spec fn is_invalidated(env: Ledger, anchor: Address, quote_id: u64) -> bool {
    env.quotes.lifecycle@.contains_key((anchor, quote_id)) && env.quotes.lifecycle@[(
        anchor,
        quote_id,
    )] == QuoteLifecycleState::Invalidated
}

/// Whether an indexed quote is still of use: it is stored, has not run out and
/// was not invalidated.
pub open spec fn is_live(env: Ledger, quote_id: u64) -> bool {
    &&& env.quotes.anchors@.contains_key(quote_id)
    &&& ({
        let anchor = env.quotes.anchors@[quote_id];
        &&& env.quotes.records@.contains_key((anchor, quote_id))
        &&& env.quotes.records@[(anchor, quote_id)].valid_until > env.clock.timestamp
        &&& !is_invalidated(env, anchor, quote_id)
    })
}

/// The refusal of a quote that is not stored.
pub open spec fn quote_refusal(env: Ledger, anchor: Address, quote_id: u64) -> Option<
    ContractError,
> {
    refuse_when(!env.quotes.records@.contains_key((anchor, quote_id)), ErrorCode::QuoteNotFound)
}

/// Why accepting a quote is refused.
pub open spec fn accept_refusal(
    env: Ledger,
    receiver: Address,
    anchor: Address,
    quote_id: u64,
    require_compliance: bool,
) -> Option<ContractError> {
    either(
        auth_refusal(env, receiver),
        either(
            quote_refusal(env, anchor, quote_id),
            either(
                refuse_when(
                    is_invalidated(env, anchor, quote_id),
                    ErrorCode::InvalidQuote,
                ),
                either(
                    refuse_when(
                        env.quotes.records@[(anchor, quote_id)].valid_until <= env.clock.timestamp,
                        ErrorCode::QuoteExpired,
                    ),
                    refuse_when(
                        require_compliance && !compliance_passed(env, receiver),
                        ErrorCode::ComplianceNotMet,
                    ),
                ),
            ),
        ),
    )
}

/// Why a quote is refused.
pub open spec fn submit_quote_refusal(
    env: Ledger,
    anchor: Address,
    base_asset: String,
    quote_asset: String,
    fee_percentage: u32,
    minimum_amount: u64,
    maximum_amount: u64,
    valid_until: u64,
) -> Option<ContractError> {
    either(
        auth_refusal(env, anchor),
        terms_refusal(
            env.clock.timestamp,
            base_asset@,
            quote_asset@,
            fee_percentage,
            minimum_amount,
            maximum_amount,
            valid_until,
        ),
    )
}

/// The ledger after a quote without a reason was submitted.
pub open spec fn plain_quote_submitted(
    before: Ledger,
    after: Ledger,
    anchor: Address,
    base_asset: String,
    quote_asset: String,
    rate: u64,
    fee_percentage: u32,
    minimum_amount: u64,
    maximum_amount: u64,
    valid_until: u64,
    out: u64,
) -> bool {
    let quote = Quote {
        quote_id: out,
        anchor,
        base_asset,
        quote_asset,
        rate,
        fee_percentage,
        minimum_amount,
        maximum_amount,
        valid_until,
        schema_version: SCHEMA_V1,
        routing_reason: None,
    };
    &&& after == (Ledger {
        quotes: after.quotes,
        events: after.events,
        ..before
    })
    &&& quote_stored(before.quotes, after.quotes, quote)
    &&& after.events@ == before.events@.push(quote_announced(quote))
}

/// Why a quote with a reason is refused.
pub open spec fn reasoned_quote_refusal(
    env: Ledger,
    anchor: Address,
    base_asset: String,
    quote_asset: String,
    fee_percentage: u32,
    minimum_amount: u64,
    maximum_amount: u64,
    valid_until: u64,
) -> Option<ContractError> {
    either(
        auth_refusal(env, anchor),
        terms_refusal(
            env.clock.timestamp,
            base_asset@,
            quote_asset@,
            fee_percentage,
            minimum_amount,
            maximum_amount,
            valid_until,
        ),
    )
}

/// The ledger after a quote was submitted, with its reason where it has one.
pub open spec fn quote_submitted(
    before: Ledger,
    after: Ledger,
    anchor: Address,
    base_asset: String,
    quote_asset: String,
    rate: u64,
    fee_percentage: u32,
    minimum_amount: u64,
    maximum_amount: u64,
    valid_until: u64,
    routing_reason: Option<String>,
    out: u64,
) -> bool {
    let quote = Quote {
        quote_id: out,
        anchor,
        base_asset,
        quote_asset,
        rate,
        fee_percentage,
        minimum_amount,
        maximum_amount,
        valid_until,
        schema_version: SCHEMA_V1,
        routing_reason,
    };
    &&& after == (Ledger {
        quotes: after.quotes,
        events: after.events,
        ..before
    })
    &&& quote_stored(before.quotes, after.quotes, quote)
    &&& after.events@ == before.events@.push(quote_announced(quote))
}

/// Why a quote cannot be received.
pub open spec fn receive_refusal(
    env: Ledger,
    receiver: Address,
    anchor: Address,
    quote_id: u64,
) -> Option<ContractError> {
    either(
        auth_refusal(env, receiver),
        either(
            quote_refusal(env, anchor, quote_id),
            refuse_when(
                is_invalidated(env, anchor, quote_id),
                ErrorCode::InvalidQuote,
            ),
        ),
    )
}

/// The ledger after a quote was handed to a receiver.
pub open spec fn quote_received(
    before: Ledger,
    after: Ledger,
    receiver: Address,
    anchor: Address,
    quote_id: u64,
    out: Quote,
) -> bool {
    &&& out == before.quotes.records@[(anchor, quote_id)]
    &&& after == (Ledger { events: after.events, ..before })
    &&& after.events@ == before.events@.push(
        Event::QuoteReceived(
            QuoteReceivedEvent {
                quote_id,
                receiver,
                timestamp: before.clock.timestamp,
            },
        ),
    )
}

/// Why a quote cannot be invalidated.
pub open spec fn invalidate_refusal(
    env: Ledger,
    anchor: Address,
    quote_id: u64,
) -> Option<ContractError> {
    either(admin_refusal(env), quote_refusal(env, anchor, quote_id))
}

/// The ledger after a quote was invalidated.
pub open spec fn quote_invalidated(
    before: Ledger,
    after: Ledger,
    anchor: Address,
    quote_id: u64,
) -> bool {
    &&& after == (Ledger {
        quotes: QuoteState { lifecycle: after.quotes.lifecycle, ..before.quotes },
        events: after.events,
        ..before
    })
    &&& after.quotes.lifecycle@ == before.quotes.lifecycle@.insert(
        (anchor, quote_id),
        QuoteLifecycleState::Invalidated,
    )
    &&& is_invalidated(after, anchor, quote_id)
    &&& after.events@ == before.events@.push(Event::QuoteInvalidated(quote_id))
}

/// The ledger after the index of quotes was purged.
pub open spec fn quotes_purged(before: Ledger, after: Ledger) -> bool {
    &&& after == (Ledger {
        quotes: QuoteState { index: after.quotes.index, ..before.quotes },
        ..before
    })
    &&& after.quotes.index@ == before.quotes.index@.filter(
        |id: u64| is_live(before, id),
    )
}

/// The ledger after a quote was accepted.
pub open spec fn quote_accepted(
    before: Ledger,
    after: Ledger,
    receiver: Address,
    anchor: Address,
    quote_id: u64,
    out: Quote,
) -> bool {
    &&& out == before.quotes.records@[(anchor, quote_id)]
    &&& after == (Ledger { events: after.events, ..before })
    &&& after.events@ == before.events@.push(
        Event::QuoteAccepted(
            QuoteReceivedEvent {
                quote_id,
                receiver,
                timestamp: before.clock.timestamp,
            },
        ),
    )
}

/// Whether a quote is active or was invalidated.
pub open spec fn lifecycle_of(env: Ledger, anchor: Address, quote_id: u64) -> QuoteLifecycleState {
    if is_invalidated(env, anchor, quote_id) {
        QuoteLifecycleState::Invalidated
    } else {
        QuoteLifecycleState::Active
    }
}

/// The ledger after it was noted whether a quote has run out.
pub open spec fn expiry_noted(
    before: Ledger,
    after: Ledger,
    anchor: Address,
    quote_id: u64,
) -> bool {
    let quote = before.quotes.records@[(anchor, quote_id)];
    let now = before.clock.timestamp;
    &&& after == (Ledger { events: after.events, ..before })
    &&& after.events@ == (if before.quotes.records@.contains_key(
        (anchor, quote_id),
    ) && quote.valid_until <= now {
        before.events@.push(
            Event::QuoteExpired(
                QuoteExpiredEvent {
                    quote_id,
                    anchor,
                    valid_until: quote.valid_until,
                    expired_at: now,
                },
            ),
        )
    } else {
        before.events@
    })
}

impl AnchorKitContract {
    /// Stores a quote of an anchor, without a routing reason.
    pub fn submit_quote(
        env: &mut Ledger,
        anchor: Address,
        base_asset: String,
        quote_asset: String,
        rate: u64,
        fee_percentage: u32,
        minimum_amount: u64,
        maximum_amount: u64,
        valid_until: u64,
    ) -> (r: Result<u64, ContractError>)
        requires
            old(env).quotes.count < u64::MAX,
        ensures
            follows(r, submit_quote_refusal(
                *old(env),
                anchor,
                base_asset,
                quote_asset,
                fee_percentage,
                minimum_amount,
                maximum_amount,
                valid_until,
            )),
            r is Err ==> *final(env) == *old(env),
            r is Ok ==> plain_quote_submitted(
                *old(env),
                *final(env),
                anchor,
                base_asset,
                quote_asset,
                rate,
                fee_percentage,
                minimum_amount,
                maximum_amount,
                valid_until,
                r->Ok_0,
            ),
    {
        Self::submit_quote_with_reason(
            env,
            anchor,
            base_asset,
            quote_asset,
            rate,
            fee_percentage,
            minimum_amount,
            maximum_amount,
            valid_until,
            None,
        )
    }

    /// Stores a quote of an anchor, with the reason for routing to it where
    /// there is one. Numbers of quotes count up from one.
    pub fn submit_quote_with_reason(
        env: &mut Ledger,
        anchor: Address,
        base_asset: String,
        quote_asset: String,
        rate: u64,
        fee_percentage: u32,
        minimum_amount: u64,
        maximum_amount: u64,
        valid_until: u64,
        routing_reason: Option<String>,
    ) -> (r: Result<u64, ContractError>)
        requires
            old(env).quotes.count < u64::MAX,
        ensures
            follows(r, reasoned_quote_refusal(
                *old(env),
                anchor,
                base_asset,
                quote_asset,
                fee_percentage,
                minimum_amount,
                maximum_amount,
                valid_until,
            )),
            r is Err ==> *final(env) == *old(env),
            r is Ok ==> quote_submitted(
                *old(env),
                *final(env),
                anchor,
                base_asset,
                quote_asset,
                rate,
                fee_percentage,
                minimum_amount,
                maximum_amount,
                valid_until,
                routing_reason,
                r->Ok_0,
            ),
    {
        if let Err(e) = env.require_auth(&anchor) {
            return Err(e);
        }
        if let Err(e) = validate_currency_code(&base_asset) {
            return Err(e);
        }
        if let Err(e) = validate_currency_code(&quote_asset) {
            return Err(e);
        }
        if let Err(e) = validate_fee_percent(fee_percentage) {
            return Err(e);
        }
        if let Err(e) = validate_amount_limits(minimum_amount, maximum_amount) {
            return Err(e);
        }
        let now: u64 = env.clock.timestamp;
        if valid_until <= now {
            return Err(ContractError::Code(ErrorCode::InvalidQuote));
        }
        if valid_until.saturating_sub(now) > MAX_QUOTE_VALIDITY_SECONDS {
            return Err(ContractError::Code(ErrorCode::InvalidQuote));
        }
        let next: u64 = env.quotes.count + 1;
        env.quotes.count = next;
        let quote = Quote {
            quote_id: next,
            anchor,
            base_asset: base_asset.clone(),
            quote_asset: quote_asset.clone(),
            rate,
            fee_percentage,
            minimum_amount,
            maximum_amount,
            valid_until,
            schema_version: SCHEMA_V1,
            routing_reason: copy_text(&routing_reason),
        };
        env.quotes.records.set((anchor, next), quote);
        env.quotes.lifecycle.set((anchor, next), QuoteLifecycleState::Active);
        env.quotes.index.push(next);
        env.quotes.anchors.set(next, anchor);
        env.quotes.latest.set(anchor, next);
        env.publish(
            Event::QuoteSubmitted(
                QuoteSubmitEvent {
                    quote_id: next,
                    anchor,
                    base_asset,
                    quote_asset,
                    rate,
                    valid_until,
                    routing_reason,
                },
            ),
        );
        Ok(next)
    }

    /// The stored quote of an anchor.
    pub fn get_quote(env: &Ledger, anchor: Address, quote_id: u64) -> (r: Result<
        Quote,
        ContractError,
    >)
        ensures
            follows(r, quote_refusal(*env, anchor, quote_id)),
            r is Ok ==> r->Ok_0 == env.quotes.records@[(anchor, quote_id)],
    {
        match env.quotes.records.get(&(anchor, quote_id)) {
            Some(q) => Ok(q.clone()),
            None => Err(ContractError::Code(ErrorCode::QuoteNotFound)),
        }
    }

    /// The reason that was stored with a quote.
    pub fn get_quote_routing_reason(env: &Ledger, anchor: Address, quote_id: u64) -> (r: Option<
        String,
    >)
        ensures
            r == (if env.quotes.records@.contains_key((anchor, quote_id)) {
                env.quotes.records@[(anchor, quote_id)].routing_reason
            } else {
                None
            }),
    {
        match env.quotes.records.get(&(anchor, quote_id)) {
            Some(q) => copy_text(&q.routing_reason),
            None => None,
        }
    }

    /// Hands a quote to a receiver and announces it. An invalidated quote
    /// cannot be received.
    pub fn receive_quote(env: &mut Ledger, receiver: Address, anchor: Address, quote_id: u64) -> (r:
        Result<Quote, ContractError>)
        ensures
            follows(r, receive_refusal(*old(env), receiver, anchor, quote_id)),
            r is Err ==> *final(env) == *old(env),
            r is Ok ==> quote_received(
                *old(env),
                *final(env),
                receiver,
                anchor,
                quote_id,
                r->Ok_0,
            ),
    {
        if let Err(e) = env.require_auth(&receiver) {
            return Err(e);
        }
        let quote = match env.quotes.records.get(&(anchor, quote_id)) {
            Some(q) => q.clone(),
            None => {
                return Err(ContractError::Code(ErrorCode::QuoteNotFound));
            },
        };
        match Self::get_quote_lifecycle_state(env, anchor, quote_id) {
            QuoteLifecycleState::Invalidated => {
                return Err(ContractError::Code(ErrorCode::InvalidQuote));
            },
            QuoteLifecycleState::Active => {},
        }
        let timestamp: u64 = env.clock.timestamp;
        env.publish(Event::QuoteReceived(QuoteReceivedEvent { quote_id, receiver, timestamp }));
        Ok(quote)
    }

    /// Whether a quote is active or was invalidated. A quote of which nothing
    /// is known counts as active.
    pub fn get_quote_lifecycle_state(env: &Ledger, anchor: Address, quote_id: u64) -> (s:
        QuoteLifecycleState)
        ensures
            s == lifecycle_of(*env, anchor, quote_id),
    {
        match env.quotes.lifecycle.get(&(anchor, quote_id)) {
            Some(s) => *s,
            None => QuoteLifecycleState::Active,
        }
    }

    /// Invalidates a quote before it runs out; its record stays.
    pub fn invalidate_quote(env: &mut Ledger, anchor: Address, quote_id: u64) -> (r: Result<
        (),
        ContractError,
    >)
        ensures
            follows(r, invalidate_refusal(*old(env), anchor, quote_id)),
            r is Err ==> *final(env) == *old(env),
            r is Ok ==> quote_invalidated(*old(env), *final(env), anchor, quote_id),
    {
        if let Err(e) = env.require_admin() {
            return Err(e);
        }
        if !env.quotes.records.has(&(anchor, quote_id)) {
            return Err(ContractError::Code(ErrorCode::QuoteNotFound));
        }
        env.quotes.lifecycle.set((anchor, quote_id), QuoteLifecycleState::Invalidated);
        env.publish(Event::QuoteInvalidated(quote_id));
        Ok(())
    }

    fn quote_is_live(env: &Ledger, quote_id: u64) -> (r: bool)
        ensures
            r == is_live(*env, quote_id),
    {
        match env.quotes.anchors.get(&quote_id) {
            None => false,
            Some(anchor) => match env.quotes.records.get(&(*anchor, quote_id)) {
                None => false,
                Some(q) => {
                    if q.valid_until <= env.clock.timestamp {
                        return false;
                    }
                    match Self::get_quote_lifecycle_state(env, *anchor, quote_id) {
                        QuoteLifecycleState::Invalidated => false,
                        QuoteLifecycleState::Active => true,
                    }
                },
            },
        }
    }

    /// Drops the quotes that have run out or were invalidated from the index;
    /// their records stay.
    pub fn purge_expired_quotes(env: &mut Ledger) -> (r: Result<(), ContractError>)
        ensures
            follows(r, admin_refusal(*old(env))),
            r is Err ==> *final(env) == *old(env),
            r is Ok ==> quotes_purged(*old(env), *final(env)),
    {
        if let Err(e) = env.require_admin() {
            return Err(e);
        }
        let mut live: Vec<u64> = Vec::new();
        let mut i: usize = 0;
        let ghost keep = |id: u64| is_live(*old(env), id);
        proof {
            reveal(Seq::filter);
            assert(live@ =~= env.quotes.index@.take(0).filter(keep));
        }
        while i < env.quotes.index.len()
            invariant
                0 <= i <= env.quotes.index@.len(),
                *env == *old(env),
                keep == (|id: u64| is_live(*old(env), id)),
                live@ == env.quotes.index@.take(i as int).filter(keep),
            decreases env.quotes.index@.len() - i,
        {
            let quote_id: u64 = env.quotes.index[i];
            if Self::quote_is_live(env, quote_id) {
                live.push(quote_id);
            }
            proof {
                reveal(Seq::filter);
                let next = env.quotes.index@.take(i + 1);
                assert(next.drop_last() =~= env.quotes.index@.take(i as int));
                assert(next.last() == quote_id);
            }
            i = i + 1;
        }
        assert(env.quotes.index@.take(env.quotes.index@.len() as int) =~= env.quotes.index@);
        env.quotes.index = live;
        Ok(())
    }

    /// Accepts a quote that was not invalidated and has not run out, where asked
    /// for only from a receiver who has passed the compliance check.
    pub fn accept_quote_with_compliance(
        env: &mut Ledger,
        receiver: Address,
        anchor: Address,
        quote_id: u64,
        require_compliance: bool,
    ) -> (r: Result<Quote, ContractError>)
        ensures
            follows(
                r,
                accept_refusal(*old(env), receiver, anchor, quote_id, require_compliance),
            ),
            r is Err ==> *final(env) == *old(env),
            r is Ok ==> quote_accepted(
                *old(env),
                *final(env),
                receiver,
                anchor,
                quote_id,
                r->Ok_0,
            ),
    {
        if let Err(e) = env.require_auth(&receiver) {
            return Err(e);
        }
        let quote = match env.quotes.records.get(&(anchor, quote_id)) {
            Some(q) => q.clone(),
            None => {
                return Err(ContractError::Code(ErrorCode::QuoteNotFound));
            },
        };
        match Self::get_quote_lifecycle_state(env, anchor, quote_id) {
            QuoteLifecycleState::Invalidated => {
                return Err(ContractError::Code(ErrorCode::InvalidQuote));
            },
            QuoteLifecycleState::Active => {},
        }
        let now: u64 = env.clock.timestamp;
        if quote.valid_until <= now {
            return Err(ContractError::Code(ErrorCode::QuoteExpired));
        }
        if require_compliance && !Self::has_passed_compliance(env, &receiver) {
            return Err(ContractError::Code(ErrorCode::ComplianceNotMet));
        }
        env.publish(
            Event::QuoteAccepted(QuoteReceivedEvent { quote_id, receiver, timestamp: now }),
        );
        Ok(quote)
    }

    /// Announces that a quote has run out, where it has. A refused acceptance
    /// changes nothing, so the announcement is a call of its own.
    pub fn note_quote_expired(env: &mut Ledger, anchor: Address, quote_id: u64)
        ensures
            expiry_noted(*old(env), *final(env), anchor, quote_id),
    {
        let valid_until: u64 = match env.quotes.records.get(&(anchor, quote_id)) {
            Some(q) => q.valid_until,
            None => {
                return;
            },
        };
        let expired_at: u64 = env.clock.timestamp;
        if valid_until <= expired_at {
            env.publish(
                Event::QuoteExpired(
                    QuoteExpiredEvent { quote_id, anchor, valid_until, expired_at },
                ),
            );
        }
    }
}

/// Whether each stored quote carries the anchor and the number that it is filed
/// under.
pub open spec fn quotes_are_filed(q: QuoteState) -> bool {
    records_are_filed(q.records@) && legacy_is_filed(q.legacy@)
}

/// Whether each quote carries what it is filed under.
pub open spec fn records_are_filed(records: Map<(Address, u64), Quote>) -> bool {
    forall|a: Address, id: u64| #[trigger]
        records.contains_key((a, id)) ==> records[(a, id)].anchor == a && records[(a, id)].quote_id
            == id
}

/// Whether each quote in the old form carries what it is filed under.
pub open spec fn legacy_is_filed(legacy: Map<(Address, u64), QuoteV1>) -> bool {
    forall|a: Address, id: u64| #[trigger]
        legacy.contains_key((a, id)) ==> legacy[(a, id)].anchor == a && legacy[(a, id)].quote_id
            == id
}

/// Before anything is stored, every quote is under its anchor and number.
pub proof fn no_quotes_are_filed(q: QuoteState)
    requires
        q.blank(),
    ensures
        quotes_are_filed(q),
{
}

/// Submitting a quote keeps every quote under its anchor and number.
pub proof fn submitted_quotes_are_filed(before: QuoteState, after: QuoteState, quote: Quote)
    requires
        quotes_are_filed(before),
        quote_stored(before, after, quote),
    ensures
        quotes_are_filed(after),
{
}

proof fn migrated_all_filed(
    start: QuoteMigration,
    anchors: Map<u64, Address>,
    ids: Seq<u64>,
    resume_after: u64,
    batch: u32,
)
    requires
        records_are_filed(start.records),
        legacy_is_filed(start.legacy),
    ensures
        records_are_filed(migrate_all(start, anchors, ids, resume_after, batch).records),
        legacy_is_filed(migrate_all(start, anchors, ids, resume_after, batch).legacy),
    decreases ids.len(),
{
    if ids.len() > 0 {
        migrated_all_filed(start, anchors, ids.drop_last(), resume_after, batch);
    }
}

/// Migrating quotes keeps every quote under its anchor and number.
pub proof fn migrated_quotes_are_filed(before: QuoteState, after: QuoteState, batch: u32)
    requires
        quotes_are_filed(before),
        after.records@ == migration_of(before, batch).records,
        after.legacy@ == migration_of(before, batch).legacy,
    ensures
        quotes_are_filed(after),
{
    let start = migration_start(before);
    migrated_all_filed(start, before.anchors@, before.index@, start.last, batch);
}

/// A quote that was stored reads back as it was submitted, and is live until
/// it runs out.
pub proof fn stored_quotes_read_back(before: Ledger, after: Ledger, quote: Quote)
    requires
        quote_stored(before.quotes, after.quotes, quote),
        after.clock.timestamp < quote.valid_until,
    ensures
        quote_refusal(after, quote.anchor, quote.quote_id) is None,
        after.quotes.records@[(quote.anchor, quote.quote_id)] == quote,
        after.quotes.latest@[quote.anchor] == quote.quote_id,
        !is_invalidated(after, quote.anchor, quote.quote_id),
        is_live(after, quote.quote_id),
        after.quotes.index@.last() == quote.quote_id,
{
}

/// The stored quotes as a step of the migration finds and leaves them.
pub struct QuoteMigration {
    pub records: Map<(Address, u64), Quote>,
    pub legacy: Map<(Address, u64), QuoteV1>,
    /// How many quotes were rewritten.
    pub migrated: int,
    /// The last number that was looked at.
    pub last: u64,
    /// Whether the batch was full before the index ended.
    pub stopped: bool,
}

/// An old quote in the current form.
pub open spec fn upgraded(v1: QuoteV1) -> Quote {
    Quote {
        quote_id: v1.quote_id,
        anchor: v1.anchor,
        base_asset: v1.base_asset,
        quote_asset: v1.quote_asset,
        rate: v1.rate,
        fee_percentage: v1.fee_percentage,
        minimum_amount: v1.minimum_amount,
        maximum_amount: v1.maximum_amount,
        valid_until: v1.valid_until,
        schema_version: SCHEMA_V2,
        routing_reason: None,
    }
}

/// The stored quotes after looking at one number: a quote of an older schema
/// is rewritten, everything else is passed over.
pub open spec fn migrate_one(m: QuoteMigration, anchors: Map<u64, Address>, id: u64) -> QuoteMigration {
    let key = (anchors[id], id);
    if !anchors.contains_key(id) {
        QuoteMigration { last: id, ..m }
    } else if m.records.contains_key(key) {
        if m.records[key].schema_version >= SCHEMA_V2 {
            QuoteMigration { last: id, ..m }
        } else {
            QuoteMigration {
                records: m.records.insert(
                    key,
                    (Quote { routing_reason: None, schema_version: SCHEMA_V2, ..m.records[key] }),
                ),
                migrated: m.migrated + 1,
                last: id,
                ..m
            }
        }
    } else if m.legacy.contains_key(key) {
        if m.legacy[key].schema_version >= SCHEMA_V2 {
            QuoteMigration { last: id, ..m }
        } else {
            QuoteMigration {
                records: m.records.insert(key, upgraded(m.legacy[key])),
                legacy: m.legacy.remove(key),
                migrated: m.migrated + 1,
                last: id,
                ..m
            }
        }
    } else {
        QuoteMigration { last: id, ..m }
    }
}

/// The stored quotes after going through the numbers `ids` behind
/// `resume_after`, rewriting at most `batch` of them.
pub open spec fn migrate_all(
    start: QuoteMigration,
    anchors: Map<u64, Address>,
    ids: Seq<u64>,
    resume_after: u64,
    batch: u32,
) -> QuoteMigration
    decreases ids.len(),
{
    if ids.len() == 0 {
        start
    } else {
        let m = migrate_all(start, anchors, ids.drop_last(), resume_after, batch);
        if m.stopped || ids.last() <= resume_after {
            m
        } else if m.migrated >= batch {
            QuoteMigration { stopped: true, ..m }
        } else {
            migrate_one(m, anchors, ids.last())
        }
    }
}

/// Where the migration of quotes stands at its start.
pub open spec fn migration_start(q: QuoteState) -> QuoteMigration {
    let resume_after = match q.migration_cursor {
        Some(c) => c,
        None => 0,
    };
    QuoteMigration {
        records: q.records@,
        legacy: q.legacy@,
        migrated: 0,
        last: resume_after,
        stopped: false,
    }
}

/// What the migration of quotes comes to.
pub open spec fn migration_of(q: QuoteState, batch: u32) -> QuoteMigration {
    let start = migration_start(q);
    migrate_all(start, q.anchors@, q.index@, start.last, batch)
}

proof fn stopped_stays(
    start: QuoteMigration,
    anchors: Map<u64, Address>,
    ids: Seq<u64>,
    n: int,
    resume_after: u64,
    batch: u32,
)
    requires
        0 <= n <= ids.len(),
        migrate_all(start, anchors, ids.take(n), resume_after, batch).stopped,
    ensures
        migrate_all(start, anchors, ids, resume_after, batch) == migrate_all(
            start,
            anchors,
            ids.take(n),
            resume_after,
            batch,
        ),
    decreases ids.len(),
{
    if n == ids.len() {
        assert(ids.take(n) =~= ids);
    } else {
        assert(ids.drop_last().take(n) =~= ids.take(n));
        stopped_stays(start, anchors, ids.drop_last(), n, resume_after, batch);
    }
}

impl AnchorKitContract {
    /// Rewrites stored quotes of older schemas, `batch_size` of them at most,
    /// and counts them. Where the batch ends before the index does, the cursor
    /// tells where to go on; otherwise it is cleared.
    pub(crate) fn migrate_quotes_to_v2(env: &mut Ledger, batch_size: u32) -> (r: Result<
        u32,
        ContractError,
    >)
        ensures
            follows(r, refuse_when(batch_size == 0, ErrorCode::ValidationError)),
            r is Err ==> *final(env) == *old(env),
            r is Ok ==> {
                let m = migration_of(old(env).quotes, batch_size);
                &&& r->Ok_0 == m.migrated
                &&& *final(env) == (Ledger {
                    quotes: QuoteState {
                        records: final(env).quotes.records,
                        legacy: final(env).quotes.legacy,
                        migration_cursor: if m.stopped {
                            Some(m.last)
                        } else {
                            None
                        },
                        ..old(env).quotes
                    },
                    ..*old(env)
                })
                &&& final(env).quotes.records@ == m.records
                &&& final(env).quotes.legacy@ == m.legacy
            },
    {
        if batch_size == 0 {
            return Err(ContractError::Code(ErrorCode::ValidationError));
        }
        let resume_after: u64 = match env.quotes.migration_cursor {
            Some(c) => c,
            None => 0,
        };
        let mut migrated: u32 = 0;
        let mut last_processed: u64 = resume_after;
        let mut i: usize = 0;
        let ghost start = migration_start(old(env).quotes);
        let ghost anchors = old(env).quotes.anchors@;
        let ghost ids = old(env).quotes.index@;
        assert(ids.take(0).len() == 0);
        while i < env.quotes.index.len()
            invariant
                0 <= i <= ids.len(),
                ids == old(env).quotes.index@,
                anchors == old(env).quotes.anchors@,
                start == migration_start(old(env).quotes),
                resume_after == start.last,
                batch_size > 0,
                *env == (Ledger {
                    quotes: QuoteState {
                        records: env.quotes.records,
                        legacy: env.quotes.legacy,
                        ..old(env).quotes
                    },
                    ..*old(env)
                }),
                migrated <= batch_size,
                migrate_all(start, anchors, ids.take(i as int), resume_after, batch_size) == (
                QuoteMigration {
                    records: env.quotes.records@,
                    legacy: env.quotes.legacy@,
                    migrated: migrated as int,
                    last: last_processed,
                    stopped: false,
                }),
            decreases ids.len() - i,
        {
            let id: u64 = env.quotes.index[i];
            let ghost m = migrate_all(start, anchors, ids.take(i as int), resume_after, batch_size);
            proof {
                assert(ids.take(i + 1).drop_last() =~= ids.take(i as int));
                assert(ids.take(i + 1).last() == id);
            }
            if id <= resume_after {
                i = i + 1;
                continue;
            }
            if migrated >= batch_size {
                proof {
                    stopped_stays(start, anchors, ids, i + 1, resume_after, batch_size);
                }
                env.quotes.migration_cursor = Some(last_processed);
                return Ok(migrated);
            }
            let found = match env.quotes.anchors.get(&id) {
                Some(a) => Some(*a),
                None => None,
            };
            if let Some(anchor) = found {
                let key = (anchor, id);
                if env.quotes.records.has(&key) {
                    if let Some(q) = env.quotes.records.get_mut(&key) {
                        if q.schema_version < SCHEMA_V2 {
                            q.routing_reason = None;
                            q.schema_version = SCHEMA_V2;
                            migrated = migrated + 1;
                        }
                    }
                    proof {
                        if m.records[key].schema_version >= SCHEMA_V2 {
                            assert(env.quotes.records@ =~= m.records);
                        }
                    }
                } else {
                    let old_form = match env.quotes.legacy.get(&key) {
                        Some(v1) => if v1.schema_version < SCHEMA_V2 {
                            Some(
                                Quote {
                                    quote_id: v1.quote_id,
                                    anchor: v1.anchor,
                                    base_asset: v1.base_asset.clone(),
                                    quote_asset: v1.quote_asset.clone(),
                                    rate: v1.rate,
                                    fee_percentage: v1.fee_percentage,
                                    minimum_amount: v1.minimum_amount,
                                    maximum_amount: v1.maximum_amount,
                                    valid_until: v1.valid_until,
                                    schema_version: SCHEMA_V2,
                                    routing_reason: None,
                                },
                            )
                        } else {
                            None
                        },
                        None => None,
                    };
                    if let Some(updated) = old_form {
                        env.quotes.records.set(key, updated);
                        env.quotes.legacy.remove(&key);
                        migrated = migrated + 1;
                    }
                }
            }
            last_processed = id;
            i = i + 1;
        }
        assert(ids.take(i as int) =~= ids);
        env.quotes.migration_cursor = None;
        Ok(migrated)
    }
}

/// Whether the quote with a number is in the current form, or there is none.
pub open spec fn is_current(m: QuoteMigration, anchors: Map<u64, Address>, id: u64) -> bool {
    let key = (anchors[id], id);
    anchors.contains_key(id) ==> {
        &&& m.records.contains_key(key) ==> m.records[key].schema_version >= SCHEMA_V2
        &&& !m.records.contains_key(key) && m.legacy.contains_key(key) ==> m.legacy[key].schema_version
            >= SCHEMA_V2
    }
}

proof fn migrate_one_leaves_current(
    m: QuoteMigration,
    anchors: Map<u64, Address>,
    id: u64,
    other: u64,
)
    ensures
        is_current(migrate_one(m, anchors, id), anchors, id),
        is_current(m, anchors, other) ==> is_current(migrate_one(m, anchors, id), anchors, other),
{
}

/// The migration is complete when it does not stop: where the numbers in the
/// index ascend and every quote up to the cursor is current, every quote up to
/// the last one looked at is current afterwards, and all of them when the
/// batch did not run full. A batch rewrites no more than its size.
pub proof fn migration_reaches_every_quote(
    start: QuoteMigration,
    anchors: Map<u64, Address>,
    ids: Seq<u64>,
    resume_after: u64,
    batch: u32,
)
    requires
        start.last == resume_after,
        start.migrated == 0,
        !start.stopped,
        forall|i: int, j: int| 0 <= i < j < ids.len() ==> ids[i] < ids[j],
        forall|i: int|
            0 <= i < ids.len() && ids[i] <= resume_after ==> is_current(
                start,
                anchors,
                #[trigger] ids[i],
            ),
    ensures
        ({
            let m = migrate_all(start, anchors, ids, resume_after, batch);
            &&& m.migrated <= batch
            &&& resume_after <= m.last
            &&& ids.len() > 0 ==> m.last <= ids.last() || m.last == resume_after
            &&& forall|i: int|
                0 <= i < ids.len() && (ids[i] <= m.last || !m.stopped) ==> is_current(
                    m,
                    anchors,
                    #[trigger] ids[i],
                )
        }),
    decreases ids.len(),
{
    if ids.len() > 0 {
        let rest = ids.drop_last();
        assert forall|i: int| 0 <= i < rest.len() && rest[i] <= resume_after implies is_current(
            start,
            anchors,
            #[trigger] rest[i],
        ) by {
            assert(rest[i] == ids[i]);
        }
        migration_reaches_every_quote(start, anchors, rest, resume_after, batch);
        let p = migrate_all(start, anchors, rest, resume_after, batch);
        let m = migrate_all(start, anchors, ids, resume_after, batch);
        let last = ids.last();
        if rest.len() > 0 {
            assert(rest.last() == ids[ids.len() - 2]);
            assert(rest.last() < last);
        }
        assert forall|i: int| 0 <= i < ids.len() && (ids[i] <= m.last || !m.stopped) implies is_current(
            m,
            anchors,
            #[trigger] ids[i],
        ) by {
            if i < rest.len() {
                assert(rest[i] == ids[i]);
                if !p.stopped && last > resume_after && p.migrated < batch {
                    migrate_one_leaves_current(p, anchors, last, ids[i]);
                }
            } else {
                if !p.stopped && last > resume_after && p.migrated < batch {
                    migrate_one_leaves_current(p, anchors, last, last);
                } else if last <= resume_after {
                    current_is_kept(start, anchors, rest, resume_after, batch, last);
                }
            }
        }
    }
}

proof fn current_is_kept(
    start: QuoteMigration,
    anchors: Map<u64, Address>,
    ids: Seq<u64>,
    resume_after: u64,
    batch: u32,
    other: u64,
)
    requires
        is_current(start, anchors, other),
    ensures
        is_current(migrate_all(start, anchors, ids, resume_after, batch), anchors, other),
    decreases ids.len(),
{
    if ids.len() > 0 {
        current_is_kept(start, anchors, ids.drop_last(), resume_after, batch, other);
        let m = migrate_all(start, anchors, ids.drop_last(), resume_after, batch);
        migrate_one_leaves_current(m, anchors, ids.last(), other);
    }
}

} // verus!
