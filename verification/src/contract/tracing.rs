//! Requests: their ids, the spans of their operations, and their contexts.
use crate::address::Address;
use crate::contract::attestations::{
    announces_attestation, announces_webhook, attestation_stored, is_used, number_refusal,
    rate_refusal, signature_refusal, timestamp_refusal,
};
use crate::contract::events::{AttestEvent, Event, WebhookEvent};
use crate::contract::ledger::{
    attestor_refusal, auth_refusal, either, follows, refuse_when, AnchorKitContract,
    AttestationState, ContractError, Ledger, TracingState,
};
use crate::contract::limits::{rate_counted, rate_step};
use crate::contract::quotes::{quote_announced, quote_stored, terms_refusal};
use crate::contract::routing::offers_quotes;
use crate::contract::types::{
    copy_text, Bytes, Quote, RequestContext, RequestId, TracingContext, TracingSpan, SCHEMA_V1,
};
use crate::deterministic_hash::{host_sha256, sha256_digest};
use crate::encoding::{be4, be8, push_be4, push_be8, push_bytes};
use crate::errors::ErrorCode;
use vstd::prelude::*;
use vstd::string::*;

verus! {

/// The length of a request id in bytes.
pub const REQUEST_ID_BYTES: usize = 16;

/// A request id, as bytes.
pub struct RequestIdView {
    pub id: Seq<u8>,
    pub created_at: u64,
}

impl View for RequestId {
    type V = RequestIdView;

    open spec fn view(&self) -> RequestIdView {
        RequestIdView { id: self.id@, created_at: self.created_at }
    }
}

/// A span, as sequences.
pub struct SpanView {
    pub request_id: RequestIdView,
    pub operation: Seq<char>,
    pub actor: Address,
    pub started_at: u64,
    pub completed_at: u64,
    pub status: Seq<char>,
    pub parent: Seq<u8>,
    pub span_index: u32,
}

impl View for TracingSpan {
    type V = SpanView;

    open spec fn view(&self) -> SpanView {
        SpanView {
            request_id: self.request_id@,
            operation: self.operation@,
            actor: self.actor,
            started_at: self.started_at,
            completed_at: self.completed_at,
            status: self.status@,
            parent: self.parent_request_id_bytes@,
            span_index: self.span_index,
        }
    }
}

/// A context, as sequences.
pub struct ContextView {
    pub root: RequestIdView,
    pub operations: Seq<Seq<char>>,
    pub created_at: u64,
}

impl View for RequestContext {
    type V = ContextView;

    open spec fn view(&self) -> ContextView {
        ContextView {
            root: self.root_request_id@,
            operations: self.operation_chain@.map_values(|s: String| s@),
            created_at: self.created_at,
        }
    }
}

/// The bytes from which a request id is made.
pub open spec fn request_input(timestamp: u64, sequence: u32, counter: u64) -> Seq<u8> {
    be8(timestamp) + be4(sequence) + be8(counter)
}

/// The bytes from which the id of a child request is made.
pub open spec fn child_input(root: Seq<u8>, nonce: u64, timestamp: u64) -> Seq<u8> {
    root + be8(nonce) + be8(timestamp)
}

/// The request id made from a digest: its first sixteen bytes.
pub fn request_id_of_digest(digest: &[u8; 32], created_at: u64) -> (r: RequestId)
    ensures
        r@ == (RequestIdView { id: digest@.take(16), created_at }),
{
    let mut data: Vec<u8> = Vec::new();
    let mut i: usize = 0;
    while i < REQUEST_ID_BYTES
        invariant
            0 <= i <= 16,
            data@ == digest@.take(i as int),
        decreases 16 - i,
    {
        data.push(digest[i]);
        assert(digest@.take(i + 1) =~= digest@.take(i as int).push(digest@[i as int]));
        i = i + 1;
    }
    RequestId { id: Bytes { data }, created_at }
}

/// The span of an operation that succeeded at once.
pub open spec fn span_of(
    request_id: RequestIdView,
    operation: Seq<char>,
    actor: Address,
    now: u64,
    parent: Seq<u8>,
    span_index: u32,
) -> SpanView {
    SpanView {
        request_id,
        operation,
        actor,
        started_at: now,
        completed_at: now,
        status: "success"@,
        parent,
        span_index,
    }
}

/// The context of a request; an empty one made now where none was stored.
pub open spec fn context_of(env: Ledger, id: Seq<u8>) -> ContextView {
    if env.tracing.requests@.contains_key(id) {
        env.tracing.requests@[id]@
    } else {
        ContextView {
            root: RequestIdView { id, created_at: env.clock.timestamp },
            operations: Seq::empty(),
            created_at: env.clock.timestamp,
        }
    }
}

/// The contexts after an operation was appended to one.
pub open spec fn operation_appended(
    before: Ledger,
    after: TracingState,
    id: Seq<u8>,
    operations: Seq<Seq<char>>,
) -> bool {
    let old_context = context_of(before, id);
    &&& after.requests@ == before.tracing.requests@.insert(id, after.requests@[id])
    &&& after.requests@[id]@ == (ContextView {
        operations: old_context.operations + operations,
        ..old_context
    })
}

/// The spans after one was stored.
pub open spec fn span_stored(before: TracingState, after: TracingState, span: SpanView) -> bool {
    let id = span.request_id.id;
    &&& after.spans@ == before.spans@.insert(id, after.spans@[id])
    &&& after.spans@[id]@ == span
}

/// The roots after a request was made a root, unless it is one already.
pub open spec fn root_stored(before: TracingState, after: TracingState, id: Seq<u8>) -> bool {
    if before.roots@.contains_key(id) {
        after.roots@ == before.roots@
    } else {
        &&& after.roots@ == before.roots@.insert(id, after.roots@[id])
        &&& after.roots@[id].root_request_id_bytes@ == id
        &&& after.roots@[id].next_span_index == 1
    }
}

/// Why a span cannot be put under another.
pub open spec fn propagate_refusal(
    env: Ledger,
    parent: Seq<u8>,
    child: Seq<u8>,
    actor: Address,
) -> Option<ContractError> {
    either(
        auth_refusal(env, actor),
        refuse_when(
            child == parent || !env.tracing.roots@.contains_key(parent)
                || env.tracing.roots@[parent].next_span_index == u32::MAX,
            ErrorCode::ValidationError,
        ),
    )
}

/// The stored child spans of a root with indexes from one up to `to`.
pub open spec fn child_spans(tracing: TracingState, root: Seq<u8>, to: int) -> Seq<TracingSpan>
    decreases to,
{
    if to <= 1 {
        Seq::empty()
    } else {
        let rest = child_spans(tracing, root, to - 1);
        let key = (root, (to - 1) as u32);
        if tracing.children@.contains_key(key) && tracing.spans@.contains_key(
            tracing.children@[key]@,
        ) {
            rest.push(tracing.spans@[tracing.children@[key]@])
        } else {
            rest
        }
    }
}

/// All stored spans of a root: its own first, then those under it in the order
/// of their creation.
pub open spec fn trace_of(tracing: TracingState, root: Seq<u8>) -> Seq<TracingSpan> {
    (if tracing.spans@.contains_key(root) {
        seq![tracing.spans@[root]]
    } else {
        Seq::empty()
    }) + (if tracing.roots@.contains_key(root) {
        child_spans(tracing, root, tracing.roots@[root].next_span_index as int)
    } else {
        Seq::empty()
    })
}

/// Why a submission with a request id is refused.
pub open spec fn traced_refusal(
    env: Ledger,
    issuer: Address,
    timestamp: u64,
    hash: Seq<u8>,
    signature: Seq<u8>,
) -> Option<ContractError> {
    either(
        auth_refusal(env, issuer),
        either(
            attestor_refusal(env, issuer),
            either(
                signature_refusal(env, issuer, hash, signature),
                either(
                    rate_refusal(env, issuer),
                    either(
                        timestamp_refusal(timestamp),
                        either(
                            refuse_when(is_used(env, issuer, hash), ErrorCode::ReplayAttack),
                            number_refusal(env),
                        ),
                    ),
                ),
            ),
        ),
    )
}

/// The ledger after a submission with a request id was accepted under the next
/// number.
pub open spec fn traced_submission(
    before: Ledger,
    after: Ledger,
    request_id: RequestIdView,
    issuer: Address,
    subject: Address,
    timestamp: u64,
    hash: Seq<u8>,
    signature: Seq<u8>,
) -> bool {
    let id = before.attestations.counter;
    let n = before.events@.len() as int;
    &&& after == (Ledger {
        rates: after.rates,
        attestations: AttestationState {
            counter: after.attestations.counter,
            records: after.attestations.records,
            index: after.attestations.index,
            used: after.attestations.used,
            accepted_total: crate::arith::capped_sum(before.attestations.accepted_total, 1),
            ..before.attestations
        },
        tracing: TracingState {
            spans: after.tracing.spans,
            roots: after.tracing.roots,
            requests: after.tracing.requests,
            ..before.tracing
        },
        events: after.events,
        ..before
    })
    &&& rate_counted(before.rates, after.rates, issuer, rate_step(before, issuer)->0)
    &&& attestation_stored(
        before.attestations,
        after.attestations,
        issuer,
        subject,
        timestamp,
        hash,
        signature,
    )
    &&& span_stored(
        before.tracing,
        after.tracing,
        span_of(
            request_id,
            "submit_attestation"@,
            issuer,
            before.clock.timestamp,
            Seq::empty(),
            0,
        ),
    )
    &&& root_stored(before.tracing, after.tracing, request_id.id)
    &&& operation_appended(
        before,
        after.tracing,
        request_id.id,
        seq!["submit_attestation"@],
    )
    &&& after.events@ == before.events@.push(after.events@[n]).push(after.events@[n + 1])
    &&& announces_attestation(after.events@[n], id, subject, hash, timestamp)
    &&& announces_webhook(after.events@[n + 1], id, hash, timestamp)
}

/// Why a quote with a request id is refused.
pub open spec fn traced_quote_refusal(
    env: Ledger,
    anchor: Address,
    from_asset: Seq<char>,
    to_asset: Seq<char>,
    fee_bps: u32,
    min_amount: u64,
    max_amount: u64,
    expires_at: u64,
) -> Option<ContractError> {
    either(
        auth_refusal(env, anchor),
        either(
            refuse_when(!offers_quotes(env, anchor), ErrorCode::ServicesNotConfigured),
            terms_refusal(
                env.clock.timestamp,
                from_asset,
                to_asset,
                fee_bps,
                min_amount,
                max_amount,
                expires_at,
            ),
        ),
    )
}

/// The ledger after a quote with a request id was stored: the quote, a span of
/// the operation, and the operation in the context of the request. A reason for
/// the route is appended to the context too.
pub open spec fn quote_traced(
    before: Ledger,
    after: Ledger,
    request_id: RequestIdView,
    quote: Quote,
) -> bool {
    let operation = if quote.routing_reason is Some {
        "submit_quote_with_reason"@
    } else {
        "submit_quote"@
    };
    &&& after == (Ledger {
        quotes: after.quotes,
        tracing: TracingState {
            spans: after.tracing.spans,
            requests: after.tracing.requests,
            ..before.tracing
        },
        events: after.events,
        ..before
    })
    &&& quote_stored(before.quotes, after.quotes, quote)
    &&& span_stored(
        before.tracing,
        after.tracing,
        span_of(
            request_id,
            operation,
            quote.anchor,
            before.clock.timestamp,
            Seq::empty(),
            0,
        ),
    )
    &&& operation_appended(
        before,
        after.tracing,
        request_id.id,
        match quote.routing_reason {
            Some(reason) => seq![operation, reason@],
            None => seq![operation],
        },
    )
    &&& after.events@ == before.events@.push(quote_announced(quote))
}

fn copy_request_id(r: &RequestId) -> (c: RequestId)
    ensures
        c@ == r@,
{
    RequestId { id: r.id.copy(), created_at: r.created_at }
}

/// The ledger after a span was put under a root.
pub open spec fn span_propagated(
    before: Ledger,
    after: Ledger,
    parent_request_id: &RequestId,
    child_request_id: &RequestId,
    operation: String,
    actor: Address,
) -> bool {
    let parent = parent_request_id@.id;
    let old_root = before.tracing.roots@[parent];
    let index = old_root.next_span_index;
    let key = (parent, index);
    &&& after == (Ledger {
        tracing: TracingState {
            spans: after.tracing.spans,
            roots: after.tracing.roots,
            children: after.tracing.children,
            ..before.tracing
        },
        ..before
    })
    &&& after.tracing.roots@ == before.tracing.roots@.insert(
        parent,
        (TracingContext { next_span_index: (index + 1) as u32, ..old_root }),
    )
    &&& after.tracing.children@ == before.tracing.children@.insert(
        key,
        after.tracing.children@[key],
    )
    &&& after.tracing.children@[key]@ == child_request_id@.id
    &&& span_stored(
        before.tracing,
        after.tracing,
        span_of(
            child_request_id@,
            operation@,
            actor,
            before.clock.timestamp,
            parent,
            index,
        ),
    )
}

/// Why a context is not stored.
pub open spec fn context_refusal(
    env: Ledger,
    root_request_id: &RequestId,
) -> Option<ContractError> {
    either(
        refuse_when(root_request_id@.id.len() == 0, ErrorCode::ValidationError),
        refuse_when(
            root_request_id@.created_at == 0,
            ErrorCode::InvalidTimestamp,
        ),
    )
}

/// The ledger after an empty context was stored.
pub open spec fn context_created(
    before: Ledger,
    after: Ledger,
    root_request_id: &RequestId,
    out: RequestContext,
) -> bool {
    let id = root_request_id@.id;
    &&& after == (Ledger {
        tracing: TracingState {
            requests: after.tracing.requests,
            ..before.tracing
        },
        ..before
    })
    &&& after.tracing.requests@ == before.tracing.requests@.insert(
        id,
        after.tracing.requests@[id],
    )
    &&& out@ == after.tracing.requests@[id]@
    &&& out@ == (ContextView {
        root: root_request_id@,
        operations: Seq::empty(),
        created_at: before.clock.timestamp,
    })
}

/// The ledger after a quote without a reason was traced.
pub open spec fn plain_quote_traced(
    before: Ledger,
    after: Ledger,
    request_id: &RequestId,
    anchor: Address,
    from_asset: String,
    to_asset: String,
    amount: u64,
    fee_bps: u32,
    min_amount: u64,
    max_amount: u64,
    expires_at: u64,
) -> bool {
    quote_traced(
        before,
        after,
        request_id@,
        (Quote {
            quote_id: (before.quotes.count + 1) as u64,
            anchor,
            base_asset: from_asset,
            quote_asset: to_asset,
            rate: amount,
            fee_percentage: fee_bps,
            minimum_amount: min_amount,
            maximum_amount: max_amount,
            valid_until: expires_at,
            schema_version: SCHEMA_V1,
            routing_reason: None,
        }),
    )
}

/// The ledger after a quote was traced, with its reason where it has one.
pub open spec fn reasoned_quote_traced(
    before: Ledger,
    after: Ledger,
    request_id: &RequestId,
    anchor: Address,
    from_asset: String,
    to_asset: String,
    amount: u64,
    fee_bps: u32,
    min_amount: u64,
    max_amount: u64,
    expires_at: u64,
    routing_reason: Option<String>,
) -> bool {
    quote_traced(
        before,
        after,
        request_id@,
        (Quote {
            quote_id: (before.quotes.count + 1) as u64,
            anchor,
            base_asset: from_asset,
            quote_asset: to_asset,
            rate: amount,
            fee_percentage: fee_bps,
            minimum_amount: min_amount,
            maximum_amount: max_amount,
            valid_until: expires_at,
            schema_version: SCHEMA_V1,
            routing_reason,
        }),
    )
}

/// Why an operation is not appended.
pub open spec fn append_refusal(env: Ledger, operation_name: String) -> Option<ContractError> {
    refuse_when(operation_name@.len() == 0, ErrorCode::ValidationError)
}

/// The ledger after an operation was appended to a context.
pub open spec fn operation_recorded(
    before: Ledger,
    after: Ledger,
    root_request_id_bytes: &Bytes,
    operation_name: String,
) -> bool {
    &&& after == (Ledger {
        tracing: TracingState {
            requests: after.tracing.requests,
            ..before.tracing
        },
        ..before
    })
    &&& operation_appended(
        before,
        after.tracing,
        root_request_id_bytes@,
        seq![operation_name@],
    )
}

impl AnchorKitContract {
    /// Makes a new request id from the clock and a counter, so that no two are
    /// made from the same bytes.
    pub fn generate_request_id(env: &mut Ledger) -> (r: RequestId)
        requires
            old(env).tracing.request_counter < u64::MAX,
        ensures
            r@ == (RequestIdView {
                id: sha256_digest(
                    request_input(
                        old(env).clock.timestamp,
                        old(env).clock.sequence,
                        old(env).tracing.request_counter,
                    ),
                ).take(16),
                created_at: old(env).clock.timestamp,
            }),
            *final(env) == (Ledger {
                tracing: TracingState {
                    request_counter: (old(env).tracing.request_counter + 1) as u64,
                    ..old(env).tracing
                },
                ..*old(env)
            }),
    {
        let counter: u64 = env.tracing.request_counter;
        env.tracing.request_counter = counter + 1;
        let mut input: Vec<u8> = Vec::new();
        push_be8(&mut input, env.clock.timestamp);
        push_be4(&mut input, env.clock.sequence);
        push_be8(&mut input, counter);
        assert(input@ =~= request_input(
            old(env).clock.timestamp,
            old(env).clock.sequence,
            old(env).tracing.request_counter,
        ));
        let digest = host_sha256(&input);
        request_id_of_digest(&digest, env.clock.timestamp)
    }

    /// The id of a child request, made from the id of its root, a number and
    /// the clock.
    pub fn generate_child_request_id(
        env: &Ledger,
        root_bytes: &Bytes,
        nonce: u64,
    ) -> (r: RequestId)
        requires
            root_bytes@.len() + 16 <= u32::MAX,
        ensures
            r@ == (RequestIdView {
                id: sha256_digest(child_input(root_bytes@, nonce, env.clock.timestamp)).take(16),
                created_at: env.clock.timestamp,
            }),
    {
        let mut input: Vec<u8> = Vec::new();
        push_bytes(&mut input, root_bytes.data.as_slice());
        push_be8(&mut input, nonce);
        push_be8(&mut input, env.clock.timestamp);
        assert(input@ =~= child_input(root_bytes@, nonce, env.clock.timestamp));
        let digest = host_sha256(&input);
        request_id_of_digest(&digest, env.clock.timestamp)
    }

    fn store_span(
        env: &mut Ledger,
        request_id: &RequestId,
        operation: &str,
        actor: Address,
        parent: Bytes,
        span_index: u32,
    )
        ensures
            *final(env) == (Ledger {
                tracing: TracingState { spans: final(env).tracing.spans, ..old(env).tracing },
                ..*old(env)
            }),
            span_stored(
                old(env).tracing,
                final(env).tracing,
                span_of(
                    request_id@,
                    operation@,
                    actor,
                    old(env).clock.timestamp,
                    parent@,
                    span_index,
                ),
            ),
    {
        let now: u64 = env.clock.timestamp;
        let span = TracingSpan {
            request_id: copy_request_id(request_id),
            operation: operation.to_owned(),
            actor,
            started_at: now,
            completed_at: now,
            status: "success".to_owned(),
            parent_request_id_bytes: parent,
            span_index,
        };
        env.tracing.spans.set(request_id.id.copy(), span);
    }

    fn record_operation_in_context(env: &mut Ledger, root_id: &Bytes, operation_name: String)
        ensures
            *final(env) == (Ledger {
                tracing: TracingState {
                    requests: final(env).tracing.requests,
                    ..old(env).tracing
                },
                ..*old(env)
            }),
            operation_appended(
                *old(env),
                final(env).tracing,
                root_id@,
                seq![operation_name@],
            ),
    {
        let now: u64 = env.clock.timestamp;
        if env.tracing.requests.has(root_id) {
            if let Some(ctx) = env.tracing.requests.get_mut(root_id) {
                let ghost before = ctx@;
                ctx.operation_chain.push(operation_name);
                assert(ctx@.operations =~= before.operations + seq![operation_name@]);
            }
        } else {
            let mut chain: Vec<String> = Vec::new();
            chain.push(operation_name);
            assert(chain@.map_values(|s: String| s@) =~= Seq::<Seq<char>>::empty() + seq![
                operation_name@,
            ]);
            let ctx = RequestContext {
                root_request_id: RequestId { id: root_id.copy(), created_at: now },
                operation_chain: chain,
                created_at: now,
            };
            env.tracing.requests.set(root_id.copy(), ctx);
        }
    }

    fn make_root(env: &mut Ledger, id: &Bytes)
        ensures
            *final(env) == (Ledger {
                tracing: TracingState { roots: final(env).tracing.roots, ..old(env).tracing },
                ..*old(env)
            }),
            root_stored(old(env).tracing, final(env).tracing, id@),
    {
        if !env.tracing.roots.has(id) {
            let root = TracingContext { root_request_id_bytes: id.copy(), next_span_index: 1 };
            env.tracing.roots.set(id.copy(), root);
        }
    }

    /// Records an attestation and traces it under a request id, which becomes
    /// the root of a trace.
    pub fn submit_with_request_id(
        env: &mut Ledger,
        request_id: &RequestId,
        issuer: Address,
        subject: Address,
        timestamp: u64,
        payload_hash: Bytes,
        signature: Bytes,
    ) -> (r: Result<u64, ContractError>)
        ensures
            follows(
                r,
                traced_refusal(
                    *old(env),
                    issuer,
                    timestamp,
                    payload_hash@,
                    signature@,
                ),
            ),
            r is Err ==> *final(env) == *old(env),
            r is Ok ==> {
                &&& r->Ok_0 == old(env).attestations.counter
                &&& traced_submission(
                    *old(env),
                    *final(env),
                    request_id@,
                    issuer,
                    subject,
                    timestamp,
                    payload_hash@,
                    signature@,
                )
            },
    {
        if let Err(e) = env.require_auth(&issuer) {
            return Err(e);
        }
        if let Err(e) = env.check_attestor(&issuer) {
            return Err(e);
        }
        if let Err(e) = Self::verify_attestation_signature(
            env,
            &issuer,
            &payload_hash,
            &signature,
        ) {
            return Err(e);
        }
        let count = match Self::check_rate_limit(env, &issuer) {
            Err(e) => {
                return Err(e);
            },
            Ok(s) => s,
        };
        if let Err(e) = Self::check_timestamp(timestamp) {
            return Err(e);
        }
        if Self::used_by(env, &issuer, &payload_hash) {
            return Err(ContractError::Code(ErrorCode::ReplayAttack));
        }
        if env.attestations.counter == u64::MAX {
            return Err(ContractError::Code(ErrorCode::AttestorCapacityExceeded));
        }
        env.rates.states.set(issuer, count);
        let announced = payload_hash.copy();
        let due = payload_hash.copy();
        let id: u64 = Self::store_attestation(
            env,
            issuer,
            subject,
            timestamp,
            payload_hash,
            signature,
        );
        let no_parent = Bytes::new();
        Self::store_span(env, request_id, "submit_attestation", issuer, no_parent, 0);
        Self::make_root(env, &request_id.id);
        Self::record_operation_in_context(
            env,
            &request_id.id,
            "submit_attestation".to_owned(),
        );
        env.publish(
            Event::AttestationRecorded(
                id,
                subject,
                AttestEvent { payload_hash: announced, timestamp },
            ),
        );
        env.publish(
            Event::WebhookDue(
                WebhookEvent {
                    event_type: "attestation_submitted",
                    transaction_id: id,
                    timestamp,
                    payload_hash: due,
                },
            ),
        );
        Self::count_accepted(env);
        Ok(id)
    }

    /// Stores a quote and traces it under a request id.
    pub fn quote_with_request_id(
        env: &mut Ledger,
        request_id: &RequestId,
        anchor: Address,
        from_asset: String,
        to_asset: String,
        amount: u64,
        fee_bps: u32,
        min_amount: u64,
        max_amount: u64,
        expires_at: u64,
    ) -> (r: Result<(), ContractError>)
        requires
            old(env).quotes.count < u64::MAX,
        ensures
            follows(
                r,
                traced_quote_refusal(
                    *old(env),
                    anchor,
                    from_asset@,
                    to_asset@,
                    fee_bps,
                    min_amount,
                    max_amount,
                    expires_at,
                ),
            ),
            r is Err ==> *final(env) == *old(env),
            r is Ok ==> plain_quote_traced(
                *old(env),
                *final(env),
                request_id,
                anchor,
                from_asset,
                to_asset,
                amount,
                fee_bps,
                min_amount,
                max_amount,
                expires_at,
            ),
    {
        Self::quote_with_request_id_and_reason(
            env,
            request_id,
            anchor,
            from_asset,
            to_asset,
            amount,
            fee_bps,
            min_amount,
            max_amount,
            expires_at,
            None,
        )
    }

    /// Stores a quote with the reason for routing to it, and traces both under
    /// a request id.
    pub fn quote_with_request_id_and_reason(
        env: &mut Ledger,
        request_id: &RequestId,
        anchor: Address,
        from_asset: String,
        to_asset: String,
        amount: u64,
        fee_bps: u32,
        min_amount: u64,
        max_amount: u64,
        expires_at: u64,
        routing_reason: Option<String>,
    ) -> (r: Result<(), ContractError>)
        requires
            old(env).quotes.count < u64::MAX,
        ensures
            follows(
                r,
                traced_quote_refusal(
                    *old(env),
                    anchor,
                    from_asset@,
                    to_asset@,
                    fee_bps,
                    min_amount,
                    max_amount,
                    expires_at,
                ),
            ),
            r is Err ==> *final(env) == *old(env),
            r is Ok ==> reasoned_quote_traced(
                *old(env),
                *final(env),
                request_id,
                anchor,
                from_asset,
                to_asset,
                amount,
                fee_bps,
                min_amount,
                max_amount,
                expires_at,
                routing_reason,
            ),
    {
        if let Err(e) = env.require_auth(&anchor) {
            return Err(e);
        }
        if !Self::advertises_quote_service(env, &anchor) {
            return Err(ContractError::Code(ErrorCode::ServicesNotConfigured));
        }
        let reason = copy_text(&routing_reason);
        if let Err(e) = Self::submit_quote_with_reason(
            env,
            anchor,
            from_asset,
            to_asset,
            amount,
            fee_bps,
            min_amount,
            max_amount,
            expires_at,
            routing_reason,
        ) {
            return Err(e);
        }
        let no_parent = Bytes::new();
        match reason {
            Some(text) => {
                Self::store_span(
                    env,
                    request_id,
                    "submit_quote_with_reason",
                    anchor,
                    no_parent,
                    0,
                );
                let ghost mid = *env;
                Self::record_operation_in_context(
                    env,
                    &request_id.id,
                    "submit_quote_with_reason".to_owned(),
                );
                let ghost one = *env;
                let ghost words = text@;
                Self::record_operation_in_context(env, &request_id.id, text);
                proof {
                    let id = request_id@.id;
                    let start = context_of(mid, id).operations;
                    assert(start + seq!["submit_quote_with_reason"@] + seq![words] =~= start + seq![
                        "submit_quote_with_reason"@,
                        words,
                    ]);
                    assert(env.tracing.requests@ =~= mid.tracing.requests@.insert(
                        id,
                        env.tracing.requests@[id],
                    ));
                }
            },
            None => {
                Self::store_span(env, request_id, "submit_quote", anchor, no_parent, 0);
                Self::record_operation_in_context(
                    env,
                    &request_id.id,
                    "submit_quote".to_owned(),
                );
            },
        }
        Ok(())
    }

    /// The span of a request.
    pub fn get_tracing_span(env: &Ledger, request_id_bytes: Bytes) -> (r: Option<&TracingSpan>)
        ensures
            match r {
                Some(s) => env.tracing.spans@.contains_key(request_id_bytes@) && *s
                    == env.tracing.spans@[request_id_bytes@],
                None => !env.tracing.spans@.contains_key(request_id_bytes@),
            },
    {
        env.tracing.spans.get(&request_id_bytes)
    }

    /// Puts a span under a root, with the next free index.
    pub fn propagate_span(
        env: &mut Ledger,
        parent_request_id: &RequestId,
        child_request_id: &RequestId,
        operation: String,
        actor: Address,
    ) -> (r: Result<(), ContractError>)
        ensures
            follows(
                r,
                propagate_refusal(
                    *old(env),
                    parent_request_id@.id,
                    child_request_id@.id,
                    actor,
                ),
            ),
            r is Err ==> *final(env) == *old(env),
            r is Ok ==> span_propagated(
                *old(env),
                *final(env),
                parent_request_id,
                child_request_id,
                operation,
                actor,
            ),
    {
        if let Err(e) = env.require_auth(&actor) {
            return Err(e);
        }
        if child_request_id.id.equals(&parent_request_id.id) {
            return Err(ContractError::Code(ErrorCode::ValidationError));
        }
        let span_index: u32 = match env.tracing.roots.get(&parent_request_id.id) {
            Some(ctx) => ctx.next_span_index,
            None => {
                return Err(ContractError::Code(ErrorCode::ValidationError));
            },
        };
        if span_index == u32::MAX {
            return Err(ContractError::Code(ErrorCode::ValidationError));
        }
        if let Some(ctx) = env.tracing.roots.get_mut(&parent_request_id.id) {
            ctx.next_span_index = span_index + 1;
        }
        env.tracing.children.set(
            (parent_request_id.id.copy(), span_index),
            child_request_id.id.copy(),
        );
        let parent = parent_request_id.id.copy();
        Self::store_span(env, child_request_id, operation.as_str(), actor, parent, span_index);
        Ok(())
    }

    /// The spans of a root: its own first, then those under it in the order of
    /// their creation.
    pub fn get_trace<'a>(env: &'a Ledger, root_request_id_bytes: &Bytes) -> (r: Vec<
        &'a TracingSpan,
    >)
        ensures
            r@.map_values(|s: &TracingSpan| *s) == trace_of(env.tracing, root_request_id_bytes@),
    {
        let ghost root = root_request_id_bytes@;
        let ghost deref = |s: &TracingSpan| *s;
        let mut spans: Vec<&TracingSpan> = Vec::new();
        if let Some(root_span) = env.tracing.spans.get(root_request_id_bytes) {
            spans.push(root_span);
        }
        let ghost first = spans@.map_values(deref);
        assert(first =~= (if env.tracing.spans@.contains_key(root) {
            seq![env.tracing.spans@[root]]
        } else {
            Seq::empty()
        }));
        if let Some(ctx) = env.tracing.roots.get(root_request_id_bytes) {
            let mut i: u32 = 1;
            assert(child_spans(env.tracing, root, 1) =~= Seq::<TracingSpan>::empty());
            assert(spans@.map_values(deref) =~= first + child_spans(env.tracing, root, 1));
            while i < ctx.next_span_index
                invariant
                    1 <= i,
                    i <= ctx.next_span_index || i == 1,
                    root == root_request_id_bytes@,
                    deref == (|s: &TracingSpan| *s),
                    spans@.map_values(deref) == first + child_spans(env.tracing, root, i as int),
                decreases ctx.next_span_index - i,
            {
                let ghost before = spans@;
                if let Some(child_id) = env.tracing.children.get(
                    &(root_request_id_bytes.copy(), i),
                ) {
                    if let Some(child_span) = env.tracing.spans.get(child_id) {
                        spans.push(child_span);
                        assert(spans@.map_values(deref) =~= before.map_values(deref).push(
                            *child_span,
                        ));
                    }
                }
                assert(spans@.map_values(deref) =~= first + child_spans(env.tracing, root, i + 1));
                i = i + 1;
            }
            proof {
                if ctx.next_span_index <= 1 {
                    assert(child_spans(env.tracing, root, ctx.next_span_index as int) =~= Seq::<
                        TracingSpan,
                    >::empty());
                }
            }
        }
        assert(spans@.map_values(|s: &TracingSpan| *s) =~= trace_of(env.tracing, root));
        spans
    }

    /// Stores an empty context for a request.
    pub fn create_request_context(env: &mut Ledger, root_request_id: &RequestId) -> (r: Result<
        RequestContext,
        ContractError,
    >)
        ensures
            follows(r, context_refusal(*old(env), root_request_id)),
            r is Err ==> *final(env) == *old(env),
            r is Ok ==> context_created(*old(env), *final(env), root_request_id, r->Ok_0),
    {
        if root_request_id.id.len() == 0 {
            return Err(ContractError::Code(ErrorCode::ValidationError));
        }
        if root_request_id.created_at == 0 {
            return Err(ContractError::Code(ErrorCode::InvalidTimestamp));
        }
        let now: u64 = env.clock.timestamp;
        let stored = RequestContext {
            root_request_id: copy_request_id(root_request_id),
            operation_chain: Vec::new(),
            created_at: now,
        };
        assert(stored@.operations =~= Seq::<Seq<char>>::empty());
        env.tracing.requests.set(root_request_id.id.copy(), stored);
        let result = RequestContext {
            root_request_id: copy_request_id(root_request_id),
            operation_chain: Vec::new(),
            created_at: now,
        };
        assert(result@.operations =~= Seq::<Seq<char>>::empty());
        Ok(result)
    }

    /// Appends an operation to the context of a request, which is made where
    /// there is none.
    pub fn append_operation(
        env: &mut Ledger,
        root_request_id_bytes: &Bytes,
        operation_name: String,
    ) -> (r: Result<(), ContractError>)
        ensures
            follows(r, append_refusal(*old(env), operation_name)),
            r is Err ==> *final(env) == *old(env),
            r is Ok ==> operation_recorded(
                *old(env),
                *final(env),
                root_request_id_bytes,
                operation_name,
            ),
    {
        if operation_name.as_str().unicode_len() == 0 {
            return Err(ContractError::Code(ErrorCode::ValidationError));
        }
        Self::record_operation_in_context(env, root_request_id_bytes, operation_name);
        Ok(())
    }

    /// The context of a request.
    pub fn get_request_context(env: &Ledger, root_request_id_bytes: Bytes) -> (r: Option<
        &RequestContext,
    >)
        ensures
            match r {
                Some(c) => env.tracing.requests@.contains_key(root_request_id_bytes@) && *c
                    == env.tracing.requests@[root_request_id_bytes@],
                None => !env.tracing.requests@.contains_key(root_request_id_bytes@),
            },
    {
        env.tracing.requests.get(&root_request_id_bytes)
    }

    /// The hash of an attestation payload.
    pub fn compute_payload_hash(
        subject: Address,
        timestamp: u64,
        data: &Bytes,
    ) -> (r: Result<[u8; 32], ContractError>)
        ensures
            match r {
                Ok(h) => crate::deterministic_hash::payload_accepted(data@) && h@ == sha256_digest(
                    crate::deterministic_hash::payload_input(subject, timestamp, data@),
                ),
                Err(e) => !crate::deterministic_hash::payload_accepted(data@) && e
                    == ContractError::Code(ErrorCode::ValidationError),
            },
    {
        match crate::deterministic_hash::compute_payload_hash(
            &subject,
            timestamp,
            data.data.as_slice(),
        ) {
            Ok(h) => Ok(h),
            Err(c) => Err(ContractError::Code(c)),
        }
    }

    /// Whether the payload hash of an attestation is the expected one.
    pub fn verify_payload_hash(env: &Ledger, attestation_id: u64, expected_hash: [u8; 32]) -> (r:
        Result<bool, ContractError>)
        ensures
            follows(
                r,
                either(
                    refuse_when(
                        !env.attestations.records@.contains_key(attestation_id),
                        ErrorCode::AttestationNotFound,
                    ),
                    refuse_when(
                        env.attestations.records@[attestation_id].payload_hash@.len() != 32,
                        ErrorCode::ValidationError,
                    ),
                ),
            ),
            r is Ok ==> r->Ok_0 == (env.attestations.records@[attestation_id].payload_hash@
                == expected_hash@),
    {
        match env.attestations.records.get(&attestation_id) {
            None => Err(ContractError::Code(ErrorCode::AttestationNotFound)),
            Some(a) => {
                if a.payload_hash.len() != 32 {
                    return Err(ContractError::Code(ErrorCode::ValidationError));
                }
                let mut i: usize = 0;
                while i < 32
                    invariant
                        0 <= i <= 32,
                        a.payload_hash@.len() == 32,
                        *a == env.attestations.records@[attestation_id],
                        env.attestations.records@.contains_key(attestation_id),
                        forall|j: int| 0 <= j < i ==> a.payload_hash@[j] == expected_hash@[j],
                    decreases 32 - i,
                {
                    if a.payload_hash.data[i] != expected_hash[i] {
                        return Ok(false);
                    }
                    i = i + 1;
                }
                assert(a.payload_hash@ =~= expected_hash@);
                Ok(true)
            },
        }
    }
}

/// No two request ids are made from the same bytes: the counter tells them
/// apart.
pub proof fn request_inputs_differ(ts1: u64, seq1: u32, c1: u64, ts2: u64, seq2: u32, c2: u64)
    requires
        request_input(ts1, seq1, c1) == request_input(ts2, seq2, c2),
    ensures
        ts1 == ts2 && seq1 == seq2 && c1 == c2,
{
    let a = request_input(ts1, seq1, c1);
    let b = request_input(ts2, seq2, c2);
    assert(be8(ts1) =~= a.subrange(0, 8));
    assert(be8(ts2) =~= b.subrange(0, 8));
    assert(be4(seq1) =~= a.subrange(8, 12));
    assert(be4(seq2) =~= b.subrange(8, 12));
    assert(be8(c1) =~= a.subrange(12, 20));
    assert(be8(c2) =~= b.subrange(12, 20));
    crate::encoding::be8_injective(ts1, ts2);
    crate::encoding::be4_injective(seq1, seq2);
    crate::encoding::be8_injective(c1, c2);
}

/// The ids of child requests of one root are made from different bytes for
/// different numbers and times.
pub proof fn child_inputs_differ(root: Seq<u8>, n1: u64, ts1: u64, n2: u64, ts2: u64)
    requires
        child_input(root, n1, ts1) == child_input(root, n2, ts2),
    ensures
        n1 == n2 && ts1 == ts2,
{
    let a = child_input(root, n1, ts1);
    let b = child_input(root, n2, ts2);
    let k = root.len() as int;
    assert(be8(n1) =~= a.subrange(k, k + 8));
    assert(be8(n2) =~= b.subrange(k, k + 8));
    assert(be8(ts1) =~= a.subrange(k + 8, k + 16));
    assert(be8(ts2) =~= b.subrange(k + 8, k + 16));
    crate::encoding::be8_injective(n1, n2);
    crate::encoding::be8_injective(ts1, ts2);
}

} // verus!
