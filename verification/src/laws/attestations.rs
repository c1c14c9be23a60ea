//! Laws of attestations.
use crate::address::Address;
use crate::contract::attestations::{
    acceptance_refusal, announces_attestation, announces_webhook, attestation_stored, batch_ids,
    batch_refusal, batch_step, batch_stored, in_order, input_refusal, inputs_refusal, is_page,
    is_used, judged_refusal, kyc_submit_refusal, matching, replays_of,
    session_refusal, session_submission, submission_outcome, submit_refusal,
};
use crate::contract::events::Event;
use crate::contract::ledger::{AttestationState, ContractError, Ledger};
use crate::contract::limits::{global_limit, rate_step};
use crate::contract::sessions::{open_refusal, operations_of};
use crate::contract::tracing::traced_refusal;
use crate::contract::types::{
    Attestation, AttestationFilter, AttestationInput, AttestationPage, AttestationSortOrder,
};
use crate::errors::ErrorCode;
use crate::signature::ed25519_holds;
use vstd::prelude::*;

verus! {

/// A submission passes its checks exactly where its issuer has signed the call,
/// the payload hash has at most 32 bytes, the issuer is registered with a key
/// under which the 64 bytes of the signature verify, and its time is not zero.
/// The first of these that fails is what it is refused for.
pub proof fn submissions_are_checked(
    env: Ledger,
    issuer: Address,
    timestamp: u64,
    hash: Seq<u8>,
    signature: Seq<u8>,
)
    ensures
        ({
            let r = submit_refusal(env, issuer, timestamp, hash, signature);
            let called = env.auth.all || env.auth.signers@.contains(issuer);
            let registered = env.attestors.registered@.contains_key(issuer);
            let keyed = env.attestors.public_keys@.contains_key(issuer);
            let verified = ed25519_holds(env.attestors.public_keys@[issuer]@, hash, signature);
            &&& r is None <==> called && hash.len() <= 32 && registered && keyed && signature.len()
                == 64 && verified && timestamp != 0
            &&& !called ==> r == Some(ContractError::AuthRequired(issuer))
            &&& called && hash.len() > 32 ==> r == Some(
                ContractError::Code(ErrorCode::ValidationError),
            )
            &&& called && hash.len() <= 32 && !registered ==> r == Some(
                ContractError::Code(ErrorCode::AttestorRevoked),
            ) || r == Some(ContractError::Code(ErrorCode::AttestorNotRegistered))
            &&& called && hash.len() <= 32 && registered && !keyed ==> r == Some(
                ContractError::Code(ErrorCode::UnauthorizedAttestor),
            )
            &&& called && hash.len() <= 32 && registered && keyed && signature.len() != 64 ==> r
                == Some(ContractError::Code(ErrorCode::SignatureVerificationFailed))
            &&& called && hash.len() <= 32 && registered && keyed && signature.len() == 64
                && !verified ==> r == Some(ContractError::SignatureInvalid)
            &&& called && hash.len() <= 32 && registered && keyed && signature.len() == 64 && verified
                && timestamp == 0 ==> r == Some(ContractError::Code(ErrorCode::InvalidTimestamp))
        }),
{
}

/// A submission with an identity check that is not asked for passes exactly where
/// its issuer has signed the call and is registered with a key under which the
/// signature verifies, and its time is not zero.
pub proof fn checked_submissions_are_signed(
    env: Ledger,
    issuer: Address,
    subject: Address,
    timestamp: u64,
    hash: Seq<u8>,
    signature: Seq<u8>,
)
    ensures
        kyc_submit_refusal(env, issuer, subject, timestamp, hash, signature, false) is None <==> {
            &&& env.auth.all || env.auth.signers@.contains(issuer)
            &&& env.attestors.registered@.contains_key(issuer)
            &&& env.attestors.public_keys@.contains_key(issuer)
            &&& signature.len() == 64
            &&& ed25519_holds(env.attestors.public_keys@[issuer]@, hash, signature)
            &&& timestamp != 0
        },
{
}

/// A submission under a request passes exactly where its issuer has signed the
/// call and is registered with a key under which the signature verifies, its time
/// is not zero, the issuer has not used the payload, its window is not full and a
/// number is left.
pub proof fn traced_submissions_are_checked(
    env: Ledger,
    issuer: Address,
    timestamp: u64,
    hash: Seq<u8>,
    signature: Seq<u8>,
)
    ensures
        traced_refusal(env, issuer, timestamp, hash, signature) is None <==> {
            &&& env.auth.all || env.auth.signers@.contains(issuer)
            &&& env.attestors.registered@.contains_key(issuer)
            &&& env.attestors.public_keys@.contains_key(issuer)
            &&& signature.len() == 64
            &&& ed25519_holds(env.attestors.public_keys@[issuer]@, hash, signature)
            &&& timestamp != 0
            &&& !env.attestations.used@.contains_key((issuer, hash))
            &&& rate_step(env, issuer) is Some
            &&& env.attestations.counter < u64::MAX
        },
        traced_refusal(env, issuer, timestamp, hash, signature) == Some(
            ContractError::Code(ErrorCode::ReplayAttack),
        ) ==> env.attestations.used@.contains_key((issuer, hash)),
        traced_refusal(env, issuer, timestamp, hash, signature) == Some(
            ContractError::Code(ErrorCode::RateLimitExceeded),
        ) ==> rate_step(env, issuer) is None,
{
}

/// A submission within a session passes exactly where it would pass outside one,
/// the session is open for one more operation, and the payload was not submitted
/// in it.
pub proof fn session_submissions_are_checked(
    env: Ledger,
    session_id: u64,
    issuer: Address,
    timestamp: u64,
    hash: Seq<u8>,
    signature: Seq<u8>,
)
    ensures
        session_refusal(env, session_id, issuer, timestamp, hash, signature) is None <==> {
            &&& env.auth.all || env.auth.signers@.contains(issuer)
            &&& open_refusal(env, session_id) is None
            &&& env.attestors.registered@.contains_key(issuer)
            &&& env.attestors.public_keys@.contains_key(issuer)
            &&& signature.len() == 64
            &&& ed25519_holds(env.attestors.public_keys@[issuer]@, hash, signature)
            &&& timestamp != 0
            &&& !env.attestations.used@.contains_key((issuer, hash))
            &&& !env.attestations.session_used@.contains_key((session_id, hash))
            &&& rate_step(env, issuer) is Some
            &&& env.attestations.counter < u64::MAX
        },
        (env.auth.all || env.auth.signers@.contains(issuer)) && open_refusal(env, session_id) is Some
            ==> session_refusal(env, session_id, issuer, timestamp, hash, signature) == open_refusal(
            env,
            session_id,
        ),
{
}

/// What has passed its checks is taken exactly where its issuer has not used the
/// payload before, its window is not full and a number is left.
pub proof fn acceptance_depends_on_use_and_rate(env: Ledger, issuer: Address, hash: Seq<u8>)
    ensures
        ({
            let r = acceptance_refusal(env, issuer, hash);
            let used = env.attestations.used@.contains_key((issuer, hash));
            &&& r is None <==> !used && rate_step(env, issuer) is Some && env.attestations.counter
                < u64::MAX
            &&& used ==> r == Some(ContractError::Code(ErrorCode::ReplayAttack))
            &&& !used && rate_step(env, issuer) is None ==> r == Some(
                ContractError::Code(ErrorCode::RateLimitExceeded),
            )
            &&& is_used(env, issuer, hash) == used
        }),
{
}

/// Once a submission was accepted, the same payload of the same issuer is refused
/// as a replay, whether alone, in a session, under a request or in a batch; that
/// of another issuer is not touched by it.
pub proof fn payloads_are_accepted_once(
    before: Ledger,
    after: Ledger,
    r: Result<u64, ContractError>,
    issuer: Address,
    subject: Address,
    timestamp: u64,
    hash: Seq<u8>,
    signature: Seq<u8>,
    other: Address,
    session_id: u64,
    input: AttestationInput,
)
    requires
        submission_outcome(before, after, r, issuer, subject, timestamp, hash, signature),
        r is Ok,
        input.issuer == issuer,
        input.payload_hash@ == hash,
    ensures
        acceptance_refusal(after, issuer, hash) == Some(
            ContractError::Code(ErrorCode::ReplayAttack),
        ),
        session_refusal(after, session_id, issuer, timestamp, hash, signature) is Some,
        traced_refusal(after, issuer, timestamp, hash, signature) is Some,
        input_refusal(after, input) is Some,
        other != issuer ==> is_used(after, other, hash) == is_used(before, other, hash),
{
}

/// An accepted attestation is on record as it was submitted, under the number it
/// got; it is counted, and nothing is changed of any other one.
pub proof fn attestations_are_on_record(
    before: AttestationState,
    after: AttestationState,
    issuer: Address,
    subject: Address,
    timestamp: u64,
    hash: Seq<u8>,
    signature: Seq<u8>,
    other: u64,
)
    requires
        attestation_stored(before, after, issuer, subject, timestamp, hash, signature),
    ensures
        after.records@.contains_key(before.counter),
        after.records@[before.counter].id == before.counter,
        after.records@[before.counter].issuer == issuer,
        after.records@[before.counter].subject == subject,
        after.records@[before.counter].timestamp == timestamp,
        after.records@[before.counter].payload_hash@ == hash,
        after.records@[before.counter].signature@ == signature,
        after.records@[before.counter].schema_version == 1,
        after.counter == before.counter + 1,
        after.index@.len() == before.index@.len() + 1,
        after.index@.last() == before.counter,
        after.used@.contains_key((issuer, hash)),
        after.used@[(issuer, hash)] == before.counter,
        other != before.counter ==> after.records@.contains_key(other) == before.records@.contains_key(
            other,
        ) && after.records@[other] == before.records@[other],
{
}

/// A batch is taken exactly where its caller has signed the call and is
/// registered, and it is empty, or has at most twenty-five entries that count
/// five times against the limit for everyone, none of which is refused, with
/// numbers left for all of them.
pub proof fn batches_are_checked(env: Ledger, caller: Address, inputs: Seq<AttestationInput>)
    ensures
        ({
            let r = batch_refusal(env, caller, inputs);
            let n = inputs.len();
            let called = env.auth.all || env.auth.signers@.contains(caller);
            let registered = env.attestors.registered@.contains_key(caller);
            &&& r is None <==> called && registered && n <= 25 && (n == 0 || (batch_step(
                env,
                caller,
                n as int,
            ) is Some && inputs_refusal(env, inputs) is None && env.attestations.counter + n
                <= u64::MAX))
            &&& called && registered && n > 25 ==> r == Some(
                ContractError::Code(ErrorCode::BatchSizeExceeded),
            )
            &&& called && registered && 0 < n <= 25 && batch_step(env, caller, n as int) is None
                ==> r == Some(ContractError::Code(ErrorCode::RateLimitExceeded))
        }),
{
}

/// The entries of a batch are refused exactly where one of them is: where it is
/// not signed under its issuer's key, has no time, or holds a payload that its
/// issuer has used.
pub proof fn batch_entries_are_checked(env: Ledger, inputs: Seq<AttestationInput>)
    ensures
        inputs_refusal(env, inputs) is None <==> forall|i: int|
            0 <= i < inputs.len() ==> {
                let e = #[trigger] inputs[i];
                &&& env.attestors.public_keys@.contains_key(e.issuer)
                &&& e.signature@.len() == 64
                &&& ed25519_holds(
                    env.attestors.public_keys@[e.issuer]@,
                    e.payload_hash@,
                    e.signature@,
                )
                &&& e.timestamp != 0
                &&& !env.attestations.used@.contains_key((e.issuer, e.payload_hash@))
            },
    decreases inputs.len(),
{
    if inputs.len() > 0 {
        let rest = inputs.drop_last();
        batch_entries_are_checked(env, rest);
        assert(forall|i: int| 0 <= i < rest.len() ==> rest[i] == #[trigger] inputs[i]);
        assert(inputs[inputs.len() - 1] == inputs.last());
        if inputs_refusal(env, inputs) is None {
            assert forall|i: int| 0 <= i < inputs.len() implies ({
                let e = #[trigger] inputs[i];
                &&& env.attestors.public_keys@.contains_key(e.issuer)
                &&& e.signature@.len() == 64
                &&& ed25519_holds(
                    env.attestors.public_keys@[e.issuer]@,
                    e.payload_hash@,
                    e.signature@,
                )
                &&& e.timestamp != 0
                &&& !env.attestations.used@.contains_key((e.issuer, e.payload_hash@))
            }) by {
                if i < rest.len() {
                    assert(rest[i] == inputs[i]);
                }
            }
        }
    }
}

/// A batch of `n` adds five times `n` to what its caller has submitted in the
/// window, and is refused exactly where that is more than the limit.
pub proof fn batches_count_fivefold(env: Ledger, caller: Address, n: int)
    requires
        0 < n <= 25,
        env.clock.sequence < u32::MAX,
        env.rates.states@.contains_key(caller) ==> env.rates.states@[caller].submission_count
            < 0x8000_0000,
    ensures
        ({
            let limit = global_limit(env);
            let s = env.rates.states@[caller];
            let live = env.rates.states@.contains_key(caller) && env.clock.sequence
                < s.window_start_ledger + limit.window_length;
            let before = if live {
                s.submission_count as int
            } else {
                0
            };
            &&& batch_step(env, caller, n) is None <==> before + 5 * n > limit.max_submissions
            &&& batch_step(env, caller, n) is Some ==> {
                &&& batch_step(env, caller, n)->0.submission_count == before + 5 * n
                &&& batch_step(env, caller, n)->0.window_start_ledger == if live {
                    s.window_start_ledger
                } else {
                    env.clock.sequence
                }
            }
        }),
{
}

/// The entries of a batch are on record as they were submitted, under numbers that
/// follow one another.
pub proof fn batches_are_on_record(
    before: AttestationState,
    after: AttestationState,
    inputs: Seq<AttestationInput>,
    i: int,
)
    requires
        batch_stored(before, after, inputs),
        before.counter + inputs.len() <= u64::MAX,
        0 <= i < inputs.len(),
    ensures
        ({
            let id = (before.counter + i) as u64;
            let a = after.records@[id];
            &&& batch_ids(before.counter, inputs.len() as int)[i] == id
            &&& after.records@.contains_key(id)
            &&& a.id == id
            &&& a.issuer == inputs[i].issuer
            &&& a.subject == inputs[i].subject
            &&& a.timestamp == inputs[i].timestamp
            &&& a.payload_hash@ == inputs[i].payload_hash@
            &&& a.signature@ == inputs[i].signature@
            &&& after.counter == before.counter + inputs.len()
            &&& after.index@[before.index@.len() + i] == id
            &&& after.index@.len() == before.index@.len() + inputs.len()
        }),
{
    let e = inputs[i];
}

/// What is accepted within a session counts as an operation of it, uses up the
/// payload in it, and advances its nonce by one.
pub proof fn session_submissions_are_on_record(
    before: Ledger,
    after: Ledger,
    session_id: u64,
    issuer: Address,
    subject: Address,
    timestamp: u64,
    hash: Seq<u8>,
    signature: Seq<u8>,
    other: u64,
)
    requires
        session_submission(
            before,
            after,
            session_id,
            issuer,
            subject,
            timestamp,
            hash,
            signature,
        ),
        before.sessions.records@[session_id].nonce < u64::MAX,
        operations_of(before, session_id) < u64::MAX,
    ensures
        after.sessions.records@[session_id].nonce == before.sessions.records@[session_id].nonce + 1,
        after.sessions.records@[session_id].initiator
            == before.sessions.records@[session_id].initiator,
        after.sessions.records@[session_id].created_at
            == before.sessions.records@[session_id].created_at,
        before.sessions.records@[session_id].state == 0
            ==> after.sessions.records@[session_id].state == 1,
        before.sessions.records@[session_id].state != 0
            ==> after.sessions.records@[session_id].state
            == before.sessions.records@[session_id].state,
        other != session_id ==> after.sessions.records@[other] == before.sessions.records@[other],
        operations_of(after, session_id) == operations_of(before, session_id) + 1,
        after.attestations.session_used@.contains_key((session_id, hash)),
        after.attestations.counter == before.attestations.counter + 1,
        after.sessions.logs@[before.sessions.log_count].actor == issuer,
        after.sessions.logs@[before.sessions.log_count].operation.result_data
            == before.attestations.counter,
{
}

/// A filter lets through exactly the stored attestations that meet each of its
/// conditions: none below the number, of the issuer, about the subject, and not
/// before the one time or after the other.
pub proof fn filters_select(env: Ledger, f: AttestationFilter, id: u64)
    ensures
        crate::contract::attestations::matches(env, Some(f), id) <==> {
            let a = env.attestations.records@[id];
            &&& env.attestations.records@.contains_key(id)
            &&& match f.min_id {
                Some(n) => n <= id,
                None => true,
            }
            &&& match f.issuer {
                Some(x) => a.issuer == x,
                None => true,
            }
            &&& match f.subject {
                Some(x) => a.subject == x,
                None => true,
            }
            &&& match f.from_timestamp {
                Some(t) => t <= a.timestamp,
                None => true,
            }
            &&& match f.to_timestamp {
                Some(t) => a.timestamp <= t,
                None => true,
            }
        },
        crate::contract::attestations::matches(env, None, id) <==> env.attestations.records@.contains_key(id),
{
}

/// A page holds no more than asked for and no more than fifty, and only
/// attestations that pass the filter; it is shorter only where no more are left.
/// Where more are left the next offset goes on right behind it.
pub proof fn pages_are_full(
    env: Ledger,
    offset: u64,
    limit: u64,
    filter: Option<AttestationFilter>,
    page: AttestationPage,
    k: int,
)
    requires
        is_page(env, offset, limit, filter, page),
        env.attestations.index@.len() <= u64::MAX,
        offset + 50 <= u64::MAX,
    ensures
        page.records@.len() <= limit,
        page.records@.len() <= 50,
        page.total == env.attestations.index@.len(),
        page.records@.len() < limit && page.records@.len() < 50 ==> offset + page.records@.len()
            >= matching(env, filter).len(),
        offset + page.records@.len() < matching(env, filter).len() && limit > 0 ==> page.next_offset
            == offset + page.records@.len(),
        offset + page.records@.len() >= matching(env, filter).len() ==> page.next_offset
            == page.total,
        0 <= k < page.records@.len() ==> {
            let id = matching(env, filter)[offset + k];
            &&& *page.records@[k] == env.attestations.records@[id]
            &&& crate::contract::attestations::matches(env, filter, id)
        },
{
    if 0 <= k < page.records@.len() {
        let keep = |id: u64| crate::contract::attestations::matches(env, filter, id);
        env.attestations.index@.lemma_filter_pred(keep, offset + k);
    }
}

/// Attestations come in the order that was asked for: by number or by time,
/// rising or falling, and those of one time by number.
pub proof fn orders_are_as_asked(a: Attestation, b: Attestation)
    ensures
        in_order(AttestationSortOrder::IdAsc, a, b) <==> a.id <= b.id,
        in_order(AttestationSortOrder::IdDesc, a, b) <==> b.id <= a.id,
        a.timestamp < b.timestamp ==> in_order(AttestationSortOrder::TimestampAsc, a, b)
            && !in_order(AttestationSortOrder::TimestampAsc, b, a),
        a.timestamp < b.timestamp ==> in_order(AttestationSortOrder::TimestampDesc, b, a)
            && !in_order(AttestationSortOrder::TimestampDesc, a, b),
        a.timestamp == b.timestamp && a.id < b.id ==> in_order(
            AttestationSortOrder::TimestampAsc,
            a,
            b,
        ) && in_order(AttestationSortOrder::TimestampDesc, a, b) && !in_order(
            AttestationSortOrder::TimestampDesc,
            b,
            a,
        ),
{
}

/// A signature is refused for its first fault, and only for one.
pub proof fn signatures_are_judged(env: Ledger, issuer: Address, signature: Seq<u8>, verified: bool)
    ensures
        judged_refusal(env, issuer, signature, verified) is None
            <==> env.attestors.public_keys@.contains_key(issuer) && signature.len() == 64 && verified,
{
}

/// What is announced of an attestation names it, its subject, its payload and its
/// time.
pub proof fn attestations_are_announced(
    event: Event,
    webhook: Event,
    id: u64,
    subject: Address,
    hash: Seq<u8>,
    timestamp: u64,
)
    requires
        announces_attestation(event, id, subject, hash, timestamp),
        announces_webhook(webhook, id, hash, timestamp),
    ensures
        event matches Event::AttestationRecorded(i, s, e) && i == id && s == subject
            && e.payload_hash@ == hash && e.timestamp == timestamp,
        webhook matches Event::WebhookDue(w) && w.transaction_id == id && w.payload_hash@ == hash
            && w.timestamp == timestamp && w.event_type@ == "attestation_submitted"@,
{
}

/// A payload that was never replayed has a count of zero.
pub proof fn replays_count_from_zero(s: AttestationState, hash: Seq<u8>)
    ensures
        !s.replays@.contains_key(hash) ==> replays_of(s, hash) == 0,
        s.replays@.contains_key(hash) ==> replays_of(s, hash) == s.replays@[hash],
{
}

} // verus!
