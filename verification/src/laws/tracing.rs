//! Laws of requests and their traces.
use crate::address::Address;
use crate::contract::ledger::{ContractError, Ledger, TracingState};
use crate::contract::quotes::terms_refusal;
use crate::contract::routing::offers_quotes;
use crate::contract::tracing::{
    child_input, child_spans, context_of, operation_appended, propagate_refusal, quote_traced,
    request_input, root_stored, span_of, span_stored, trace_of, traced_quote_refusal,
    traced_submission, RequestIdView,
};
use crate::contract::types::Quote;
use crate::errors::ErrorCode;
use vstd::prelude::*;

verus! {

/// A stored span is that of the operation: it names the request, the operation, the
/// one who acted, the time and its place in the trace. No other span changes.
pub proof fn spans_are_on_record(
    before: TracingState,
    after: TracingState,
    request: RequestIdView,
    operation: Seq<char>,
    actor: Address,
    now: u64,
    parent: Seq<u8>,
    index: u32,
    other: Seq<u8>,
)
    requires
        span_stored(
            before,
            after,
            span_of(request, operation, actor, now, parent, index),
        ),
    ensures
        after.spans@.contains_key(request.id),
        ({
            let s = after.spans@[request.id];
            &&& s.request_id.id@ == request.id
            &&& s.request_id.created_at == request.created_at
            &&& s.operation@ == operation
            &&& s.actor == actor
            &&& s.started_at == now
            &&& s.completed_at == now
            &&& s.status@ == "success"@
            &&& s.parent_request_id_bytes@ == parent
            &&& s.span_index == index
        }),
        other != request.id ==> after.spans@.contains_key(other) == before.spans@.contains_key(
            other,
        ) && after.spans@[other] == before.spans@[other],
{
    assert(after.spans@[request.id]@.request_id == request);
}

/// An operation is appended behind those of its request, and those stay; where
/// there was no context one is made, dated now. No other context changes.
pub proof fn operations_are_appended(
    before: Ledger,
    after: TracingState,
    id: Seq<u8>,
    operation: Seq<char>,
    other: Seq<u8>,
)
    requires
        operation_appended(before, after, id, seq![operation]),
    ensures
        after.requests@.contains_key(id),
        ({
            let was = before.tracing.requests@[id].operation_chain@;
            let now = after.requests@[id].operation_chain@;
            &&& before.tracing.requests@.contains_key(id) ==> now.len() == was.len() + 1 && (
            forall|i: int| 0 <= i < was.len() ==> (#[trigger] now[i])@ == was[i]@)
                && after.requests@[id].created_at == before.tracing.requests@[id].created_at
            &&& !before.tracing.requests@.contains_key(id) ==> now.len() == 1
                && after.requests@[id].created_at == before.clock.timestamp
                && after.requests@[id].root_request_id.id@ == id
            &&& now[now.len() - 1]@ == operation
        }),
        other != id ==> after.requests@.contains_key(other) == before.tracing.requests@.contains_key(
            other,
        ) && after.requests@[other] == before.tracing.requests@[other],
{
    let was = before.tracing.requests@[id].operation_chain@;
    let now = after.requests@[id].operation_chain@;
    let view = |s: String| s@;
    assert(now.map_values(view) == context_of(before, id).operations + seq![operation]);
    assert(now.map_values(view).len() == now.len());
    assert forall|i: int| 0 <= i < now.len() implies (#[trigger] now[i])@ == now.map_values(
        view,
    )[i] by {}
    if before.tracing.requests@.contains_key(id) {
        assert(was.map_values(view).len() == was.len());
        assert forall|i: int| 0 <= i < was.len() implies (#[trigger] now[i])@ == was[i]@ by {
            assert(now.map_values(view)[i] == was.map_values(view)[i]);
        }
    }
    assert(now.map_values(view)[now.len() - 1] == operation);
}

/// A request becomes a root once, with one as the next index; a root stays as it
/// is.
pub proof fn roots_are_made_once(before: TracingState, after: TracingState, id: Seq<u8>)
    requires
        root_stored(before, after, id),
    ensures
        after.roots@.contains_key(id),
        before.roots@.contains_key(id) ==> after.roots@ == before.roots@,
        !before.roots@.contains_key(id) ==> after.roots@[id].next_span_index == 1
            && after.roots@[id].root_request_id_bytes@ == id,
{
}

/// A span is put under another exactly where its actor has signed the call, the
/// other is a root with an index left, and the two are not the same.
pub proof fn spans_are_put_under_roots(
    env: Ledger,
    parent: Seq<u8>,
    child: Seq<u8>,
    actor: Address,
)
    ensures
        ({
            let r = propagate_refusal(env, parent, child, actor);
            let signed = env.auth.all || env.auth.signers@.contains(actor);
            let fits = env.tracing.roots@.contains_key(parent)
                && env.tracing.roots@[parent].next_span_index < u32::MAX && child != parent;
            &&& r is None <==> signed && fits
            &&& !signed ==> r == Some(ContractError::AuthRequired(actor))
            &&& signed && !fits ==> r == Some(ContractError::Code(ErrorCode::ValidationError))
        }),
{
}

/// The trace of a root starts with its own span, and the span of a new request that
/// was put under it stands at the end of the trace.
pub proof fn traces_grow_at_the_end(before: TracingState, after: TracingState, root: Seq<u8>)
    requires
        before.roots@.contains_key(root),
        after.roots@.contains_key(root),
        before.spans@.contains_key(root),
        ({
            let index = before.roots@[root].next_span_index;
            let child = after.children@[(root, index)]@;
            &&& 1 <= index < u32::MAX
            &&& after.roots@[root].next_span_index == index + 1
            &&& after.children@ == before.children@.insert(
                (root, index),
                after.children@[(root, index)],
            )
            &&& after.spans@ == before.spans@.insert(child, after.spans@[child])
            &&& !before.spans@.contains_key(child)
            &&& child != root
            &&& forall|k: u32|
                1 <= k < index && before.children@.contains_key((root, k))
                    ==> #[trigger] before.children@[(root, k)]@ != child
        }),
    ensures
        ({
            let index = before.roots@[root].next_span_index;
            let child = after.children@[(root, index)]@;
            &&& trace_of(after, root) == trace_of(before, root).push(after.spans@[child])
            &&& trace_of(after, root)[0] == after.spans@[root]
            &&& trace_of(after, root).last() == after.spans@[child]
        }),
{
    let index = before.roots@[root].next_span_index;
    let child = after.children@[(root, index)]@;
    earlier_children_stay(before, after, root, index, index as int);
    assert((root, (index + 1 - 1) as u32) == (root, index));
    assert(child_spans(after, root, index + 1) == child_spans(after, root, index as int).push(
        after.spans@[child],
    ));
    assert(trace_of(after, root) =~= trace_of(before, root).push(after.spans@[child]));
}

proof fn earlier_children_stay(
    before: TracingState,
    after: TracingState,
    root: Seq<u8>,
    index: u32,
    to: int,
)
    requires
        to <= index,
        ({
            let child = after.children@[(root, index)]@;
            &&& after.children@ == before.children@.insert(
                (root, index),
                after.children@[(root, index)],
            )
            &&& after.spans@ == before.spans@.insert(child, after.spans@[child])
            &&& !before.spans@.contains_key(child)
            &&& forall|k: u32|
                1 <= k < index && before.children@.contains_key((root, k))
                    ==> #[trigger] before.children@[(root, k)]@ != child
        }),
    ensures
        child_spans(after, root, to) == child_spans(before, root, to),
    decreases to,
{
    if to > 1 {
        earlier_children_stay(before, after, root, index, to - 1);
        let key = (root, (to - 1) as u32);
        assert(key != (root, index));
    }
}

/// A trace without a span of its own and without a root is empty.
pub proof fn unknown_traces_are_empty(tracing: TracingState, root: Seq<u8>)
    requires
        !tracing.spans@.contains_key(root),
        !tracing.roots@.contains_key(root),
    ensures
        trace_of(tracing, root).len() == 0,
{
}

/// A traced quote is taken exactly from an anchor that has signed the call and
/// offers quotes, on sound terms.
pub proof fn traced_quotes_are_checked(
    env: Ledger,
    anchor: Address,
    from: Seq<char>,
    to: Seq<char>,
    fee: u32,
    min: u64,
    max: u64,
    until: u64,
)
    ensures
        ({
            let r = traced_quote_refusal(env, anchor, from, to, fee, min, max, until);
            let signed = env.auth.all || env.auth.signers@.contains(anchor);
            let terms = terms_refusal(env.clock.timestamp, from, to, fee, min, max, until);
            &&& r is None <==> signed && offers_quotes(env, anchor) && terms is None
            &&& !signed ==> r == Some(ContractError::AuthRequired(anchor))
            &&& signed && !offers_quotes(env, anchor) ==> r == Some(
                ContractError::Code(ErrorCode::ServicesNotConfigured),
            )
            &&& signed && offers_quotes(env, anchor) && terms is Some ==> r == terms
        }),
{
}

/// A traced quote is stored under its number, its span names the anchor, and its
/// operation, with the reason behind it where there is one, ends the context.
pub proof fn traced_quotes_are_on_record(
    before: Ledger,
    after: Ledger,
    request: RequestIdView,
    quote: Quote,
)
    requires
        quote_traced(before, after, request, quote),
        quote.quote_id == before.quotes.count + 1,
    ensures
        after.quotes.records@.contains_key((quote.anchor, quote.quote_id)),
        after.quotes.records@[(quote.anchor, quote.quote_id)] == quote,
        after.tracing.spans@.contains_key(request.id),
        after.tracing.spans@[request.id].actor == quote.anchor,
        after.tracing.requests@.contains_key(request.id),
        ({
            let all = after.tracing.requests@[request.id]@.operations;
            &&& quote.routing_reason is None ==> all.last() == "submit_quote"@
            &&& quote.routing_reason is Some ==> all.last() == quote.routing_reason->0@ && all[
            all.len() - 2] == "submit_quote_with_reason"@
        }),
        after.attestations == before.attestations,
        after.kyc == before.kyc,
{
}

/// What a traced submission leaves in the trace: a span of the issuer that is a
/// root, and its operation at the end of the context.
pub proof fn traced_submissions_are_roots(
    before: Ledger,
    after: Ledger,
    request: RequestIdView,
    issuer: Address,
    subject: Address,
    timestamp: u64,
    hash: Seq<u8>,
    signature: Seq<u8>,
)
    requires
        traced_submission(before, after, request, issuer, subject, timestamp, hash, signature),
    ensures
        ({
            let s = after.tracing.spans@[request.id];
            let id = before.attestations.counter;
            &&& after.tracing.spans@.contains_key(request.id)
            &&& s.actor == issuer
            &&& s.operation@ == "submit_attestation"@
            &&& s.started_at == before.clock.timestamp
            &&& s.span_index == 0
            &&& s.parent_request_id_bytes@.len() == 0
            &&& after.tracing.roots@.contains_key(request.id)
            &&& after.tracing.requests@[request.id]@.operations.last() == "submit_attestation"@
            &&& after.attestations.records@.contains_key(id)
            &&& after.attestations.records@[id].issuer == issuer
            &&& after.attestations.records@[id].subject == subject
            &&& after.attestations.records@[id].timestamp == timestamp
            &&& after.attestations.records@[id].payload_hash@ == hash
            &&& after.events@.len() == before.events@.len() + 2
        }),
{
    assert(after.tracing.spans@[request.id]@.request_id == request);
}

/// A request id is made from twenty bytes, and the id of a child from those of its
/// root and sixteen more.
pub proof fn request_ids_are_made_from_bytes(
    timestamp: u64,
    sequence: u32,
    counter: u64,
    root: Seq<u8>,
    nonce: u64,
)
    ensures
        request_input(timestamp, sequence, counter).len() == 20,
        child_input(root, nonce, timestamp).len() == root.len() + 16,
        child_input(root, nonce, timestamp).take(root.len() as int) == root,
{
    assert(child_input(root, nonce, timestamp).take(root.len() as int) =~= root);
}

} // verus!
