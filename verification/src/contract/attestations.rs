//! Attestations: submission, protection against replays, and retrieval.
use crate::address::Address;
use crate::contract::events::{AttestEvent, Event, WebhookEvent};
use crate::contract::kyc::kyc_status_in;
use crate::contract::ledger::{
    attestor_refusal, auth_refusal, either, follows, refuse_when, AnchorKitContract,
    AttestationState, ContractError, Ledger,
};
use crate::contract::limits::{global_limit, rate_counted, rate_state, rate_step};
use crate::contract::routing::kyc_gate;
use crate::contract::sessions::{
    can_log, open_refusal, opened_sessions, operation_announced, operation_logged,
};
use crate::contract::tracing::traced_refusal;
use crate::contract::types::{
    Attestation, AttestationFilter, AttestationInput, AttestationPage, AttestationSortOrder, Bytes,
    Session, BATCH_ATTESTATION_RATE_MULTIPLIER, MAX_BATCH_SIZE, MAX_PAYLOAD_HASH_BYTES, SCHEMA_V1,
};
use crate::errors::ErrorCode;
use crate::rate_limiter::{current_window, is_window_expired, RateLimitState};
use crate::replay_detection::ReplayMetrics;
use crate::signature::{ed25519_holds, host_ed25519};
use crate::sorting::{is_sorted_order, lists_each, sorted_order, Ranked};
use vstd::prelude::*;

verus! {

/// The length of a signature in bytes.
pub const SIGNATURE_BYTES: usize = 64;

/// The refusal of a signature of which is known whether it verifies: by an
/// issuer without a key, of the wrong length, or one that does not verify.
pub open spec fn judged_refusal(
    env: Ledger,
    issuer: Address,
    signature: Seq<u8>,
    verified: bool,
) -> Option<ContractError> {
    if !env.attestors.public_keys@.contains_key(issuer) {
        Some(ContractError::Code(ErrorCode::UnauthorizedAttestor))
    } else if signature.len() != SIGNATURE_BYTES {
        Some(ContractError::Code(ErrorCode::SignatureVerificationFailed))
    } else if !verified {
        Some(ContractError::SignatureInvalid)
    } else {
        None
    }
}

/// The refusal of a signature of a payload hash, which is verified under the key
/// of the issuer.
pub open spec fn signature_refusal(
    env: Ledger,
    issuer: Address,
    hash: Seq<u8>,
    signature: Seq<u8>,
) -> Option<ContractError> {
    judged_refusal(
        env,
        issuer,
        signature,
        ed25519_holds(env.attestors.public_keys@[issuer]@, hash, signature),
    )
}

/// Whether an issuer has a key, under which the signature of the payload hash
/// verifies.
pub open spec fn is_signed(env: Ledger, issuer: Address, hash: Seq<u8>, signature: Seq<u8>) -> bool {
    &&& env.attestors.public_keys@.contains_key(issuer)
    &&& signature.len() == SIGNATURE_BYTES
    &&& ed25519_holds(env.attestors.public_keys@[issuer]@, hash, signature)
}

/// The refusal of a time of zero.
pub open spec fn timestamp_refusal(timestamp: u64) -> Option<ContractError> {
    refuse_when(timestamp == 0, ErrorCode::InvalidTimestamp)
}

/// Whether an issuer has submitted a payload before.
pub open spec fn is_used(env: Ledger, issuer: Address, hash: Seq<u8>) -> bool {
    env.attestations.used@.contains_key((issuer, hash))
}

/// How often a payload was replayed.
pub open spec fn replays_of(s: AttestationState, hash: Seq<u8>) -> u64 {
    if s.replays@.contains_key(hash) {
        s.replays@[hash]
    } else {
        0
    }
}

/// The counts after a replay was found.
pub open spec fn replay_counted(before: AttestationState, after: AttestationState, hash: Seq<u8>) -> bool {
    &&& after.replays@ == before.replays@.insert(
        hash,
        crate::arith::capped_sum(replays_of(before, hash), 1),
    )
    &&& after.replay_total == crate::arith::capped_sum(before.replay_total, 1)
}

/// The announcement of a replay.
pub open spec fn announces_replay(event: Event, issuer: Address, hash: Seq<u8>) -> bool {
    event is ReplayDetected && event->ReplayDetected_0 == issuer && event->ReplayDetected_1@
        == hash
}

/// The ledger after a replay was found: counted and announced.
pub open spec fn replay_noted(before: Ledger, after: Ledger, issuer: Address, hash: Seq<u8>) -> bool {
    &&& after == (Ledger {
        attestations: AttestationState {
            replays: after.attestations.replays,
            replay_total: after.attestations.replay_total,
            ..before.attestations
        },
        events: after.events,
        ..before
    })
    &&& replay_counted(before.attestations, after.attestations, hash)
    &&& after.events@ == before.events@.push(after.events@.last())
    &&& announces_replay(after.events@.last(), issuer, hash)
}

/// Whether `a` is the attestation with these contents.
pub open spec fn is_attestation(
    a: Attestation,
    id: u64,
    issuer: Address,
    subject: Address,
    timestamp: u64,
    hash: Seq<u8>,
    signature: Seq<u8>,
) -> bool {
    &&& a.id == id
    &&& a.issuer == issuer
    &&& a.subject == subject
    &&& a.timestamp == timestamp
    &&& a.payload_hash@ == hash
    &&& a.signature@ == signature
    &&& a.schema_version == SCHEMA_V1
}

/// The attestations after one was stored: counted, stored under its number,
/// indexed, and its payload used up for its issuer.
pub open spec fn attestation_stored(
    before: AttestationState,
    after: AttestationState,
    issuer: Address,
    subject: Address,
    timestamp: u64,
    hash: Seq<u8>,
    signature: Seq<u8>,
) -> bool {
    let id = before.counter;
    &&& after.counter == id + 1
    &&& after.records@ == before.records@.insert(id, after.records@[id])
    &&& is_attestation(after.records@[id], id, issuer, subject, timestamp, hash, signature)
    &&& after.index@ == before.index@.push(id)
    &&& after.used@ == before.used@.insert((issuer, hash), id)
}

/// The announcement of a recorded attestation.
pub open spec fn announces_attestation(
    event: Event,
    id: u64,
    subject: Address,
    hash: Seq<u8>,
    timestamp: u64,
) -> bool {
    &&& event is AttestationRecorded
    &&& event->AttestationRecorded_0 == id
    &&& event->AttestationRecorded_1 == subject
    &&& event->AttestationRecorded_2.payload_hash@ == hash
    &&& event->AttestationRecorded_2.timestamp == timestamp
}

/// The announcement of an attestation for webhooks.
pub open spec fn announces_webhook(event: Event, id: u64, hash: Seq<u8>, timestamp: u64) -> bool {
    &&& event is WebhookDue
    &&& event->WebhookDue_0.event_type@ == "attestation_submitted"@
    &&& event->WebhookDue_0.transaction_id == id
    &&& event->WebhookDue_0.timestamp == timestamp
    &&& event->WebhookDue_0.payload_hash@ == hash
}

/// What a plain submission is refused for before anything is written.
pub open spec fn submit_refusal(
    env: Ledger,
    issuer: Address,
    timestamp: u64,
    hash: Seq<u8>,
    signature: Seq<u8>,
) -> Option<ContractError> {
    either(
        auth_refusal(env, issuer),
        either(
            refuse_when(hash.len() > MAX_PAYLOAD_HASH_BYTES, ErrorCode::ValidationError),
            either(
                attestor_refusal(env, issuer),
                either(
                    signature_refusal(env, issuer, hash, signature),
                    timestamp_refusal(timestamp),
                ),
            ),
        ),
    )
}

/// What a submission with an identity check is refused for before anything is
/// written.
pub open spec fn kyc_submit_refusal(
    env: Ledger,
    issuer: Address,
    subject: Address,
    timestamp: u64,
    hash: Seq<u8>,
    signature: Seq<u8>,
    require_kyc: bool,
) -> Option<ContractError> {
    either(
        auth_refusal(env, issuer),
        either(
            attestor_refusal(env, issuer),
            either(
                signature_refusal(env, issuer, hash, signature),
                either(
                    timestamp_refusal(timestamp),
                    if require_kyc {
                        kyc_gate(kyc_status_in(env, subject))
                    } else {
                        None
                    },
                ),
            ),
        ),
    )
}

/// The refusal of a submission over the rate limit.
pub open spec fn rate_refusal(env: Ledger, issuer: Address) -> Option<ContractError> {
    refuse_when(rate_step(env, issuer) is None, ErrorCode::RateLimitExceeded)
}

/// The refusal of a submission for which no number is left.
pub open spec fn number_refusal(env: Ledger) -> Option<ContractError> {
    refuse_when(env.attestations.counter == u64::MAX, ErrorCode::AttestorCapacityExceeded)
}

/// What a checked submission is refused for: a replay, a submission over the
/// rate limit, or one for which no number is left.
pub open spec fn acceptance_refusal(env: Ledger, issuer: Address, hash: Seq<u8>) -> Option<
    ContractError,
> {
    either(
        refuse_when(is_used(env, issuer, hash), ErrorCode::ReplayAttack),
        either(rate_refusal(env, issuer), number_refusal(env)),
    )
}

/// What follows the checks of a submission: it is refused and nothing changes,
/// or it is counted and stored.
pub open spec fn submission_outcome(
    before: Ledger,
    after: Ledger,
    r: Result<u64, ContractError>,
    issuer: Address,
    subject: Address,
    timestamp: u64,
    hash: Seq<u8>,
    signature: Seq<u8>,
) -> bool {
    if acceptance_refusal(before, issuer, hash) is Some {
        &&& r == Err::<u64, ContractError>(acceptance_refusal(before, issuer, hash)->0)
        &&& after == before
    } else {
        &&& r == Ok::<u64, ContractError>(before.attestations.counter)
        &&& after == (Ledger {
            attestations: AttestationState {
                counter: after.attestations.counter,
                records: after.attestations.records,
                index: after.attestations.index,
                used: after.attestations.used,
                accepted_total: crate::arith::capped_sum(before.attestations.accepted_total, 1),
                ..before.attestations
            },
            rates: after.rates,
            events: after.events,
            ..before
        })
        &&& rate_counted(before.rates, after.rates, issuer, rate_step(before, issuer)->0)
        &&& attestation_stored(
            before.attestations,
            after.attestations,
            issuer,
            subject,
            timestamp,
            hash,
            signature,
        )
    }
}

/// Why an entry of a batch is refused. It is held against what was stored before
/// the batch.
pub open spec fn input_refusal(env: Ledger, input: AttestationInput) -> Option<ContractError> {
    either(
        signature_refusal(env, input.issuer, input.payload_hash@, input.signature@),
        either(
            timestamp_refusal(input.timestamp),
            refuse_when(
                is_used(env, input.issuer, input.payload_hash@),
                ErrorCode::ReplayAttack,
            ),
        ),
    )
}

/// Why the first bad entry of a batch is refused.
pub open spec fn inputs_refusal(env: Ledger, inputs: Seq<AttestationInput>) -> Option<ContractError>
    decreases inputs.len(),
{
    if inputs.len() == 0 {
        None
    } else {
        either(
            inputs_refusal(env, inputs.drop_last()),
            input_refusal(env, inputs.last()),
        )
    }
}

/// The count of an address after a batch of `n`, which counts five times its
/// size under the limit for everyone; `None` when that is over the limit.
pub open spec fn batch_step(env: Ledger, caller: Address, n: int) -> Option<RateLimitState> {
    let limit = global_limit(env);
    let w = current_window(rate_state(env, caller), limit, env.clock.sequence);
    let sum = w.submission_count + n * BATCH_ATTESTATION_RATE_MULTIPLIER;
    let count = if sum > u32::MAX {
        u32::MAX as int
    } else {
        sum
    };
    if count > limit.max_submissions {
        None
    } else {
        Some(RateLimitState { submission_count: count as u32, ..w })
    }
}

/// Why a batch is refused. One without entries has nothing that could be
/// refused but its caller.
pub open spec fn batch_refusal(env: Ledger, caller: Address, inputs: Seq<AttestationInput>) -> Option<
    ContractError,
> {
    let n = inputs.len() as int;
    either(
        auth_refusal(env, caller),
        either(
            attestor_refusal(env, caller),
            either(
                refuse_when(n > MAX_BATCH_SIZE, ErrorCode::BatchSizeExceeded),
                if n == 0 {
                    None
                } else {
                    either(
                        refuse_when(
                            batch_step(env, caller, n) is None,
                            ErrorCode::RateLimitExceeded,
                        ),
                        either(
                            inputs_refusal(env, inputs),
                            refuse_when(
                                env.attestations.counter + n > u64::MAX,
                                ErrorCode::AttestorCapacityExceeded,
                            ),
                        ),
                    )
                },
            ),
        ),
    )
}

/// The payloads used up after a batch whose first number is `first`.
pub open spec fn used_after(
    used: Map<(Address, Seq<u8>), u64>,
    inputs: Seq<AttestationInput>,
    first: u64,
) -> Map<(Address, Seq<u8>), u64>
    decreases inputs.len(),
{
    if inputs.len() == 0 {
        used
    } else {
        used_after(used, inputs.drop_last(), first).insert(
            (inputs.last().issuer, inputs.last().payload_hash@),
            (first + inputs.len() - 1) as u64,
        )
    }
}

/// The numbers of a batch of `n` whose first number is `first`.
pub open spec fn batch_ids(first: u64, n: int) -> Seq<u64> {
    Seq::new(n as nat, |i: int| (first + i) as u64)
}

/// The attestations after a batch was stored: each entry under the next number,
/// and nothing else changed.
pub open spec fn batch_stored(
    before: AttestationState,
    after: AttestationState,
    inputs: Seq<AttestationInput>,
) -> bool {
    let first = before.counter;
    let n = inputs.len() as int;
    &&& after == (AttestationState {
        counter: after.counter,
        records: after.records,
        index: after.index,
        used: after.used,
        ..before
    })
    &&& after.counter == first + n
    &&& after.index@ == before.index@ + batch_ids(first, n)
    &&& after.used@ == used_after(before.used@, inputs, first)
    &&& forall|i: int|
        0 <= i < n ==> {
            let input = #[trigger] inputs[i];
            let id = (first + i) as u64;
            &&& after.records@.contains_key(id)
            &&& is_attestation(
                after.records@[id],
                id,
                input.issuer,
                input.subject,
                input.timestamp,
                input.payload_hash@,
                input.signature@,
            )
        }
    &&& forall|id: u64|
        !(first <= id < first + n) ==> {
            &&& #[trigger] after.records@.contains_key(id) == before.records@.contains_key(id)
            &&& after.records@[id] == before.records@[id]
        }
}

/// Whether a stored attestation passes a filter.
pub open spec fn matches(env: Ledger, filter: Option<AttestationFilter>, id: u64) -> bool {
    let a = env.attestations.records@[id];
    &&& env.attestations.records@.contains_key(id)
    &&& filter is Some ==> {
        let f = filter->0;
        &&& f.min_id is Some ==> id >= f.min_id->0
        &&& f.issuer is Some ==> a.issuer == f.issuer->0
        &&& f.subject is Some ==> a.subject == f.subject->0
        &&& f.from_timestamp is Some ==> a.timestamp >= f.from_timestamp->0
        &&& f.to_timestamp is Some ==> a.timestamp <= f.to_timestamp->0
    }
}

/// The numbers of the attestations that pass a filter, in ascending order of
/// submission.
pub open spec fn matching(env: Ledger, filter: Option<AttestationFilter>) -> Seq<u64> {
    env.attestations.index@.filter(|id: u64| matches(env, filter, id))
}

/// The size of a page: fifty at most.
pub open spec fn page_size(limit: u64) -> u64 {
    if limit < 50 {
        limit
    } else {
        50
    }
}

/// Whether `page` holds the matching attestations from the offset on.
pub open spec fn is_page(
    env: Ledger,
    offset: u64,
    limit: u64,
    filter: Option<AttestationFilter>,
    page: AttestationPage,
) -> bool {
    let ids = matching(env, filter);
    let size = page_size(limit);
    let rest = if ids.len() > offset {
        ids.len() - offset
    } else {
        0
    };
    &&& page.total == env.attestations.index@.len()
    &&& page.records@.len() == (if rest < size {
        rest
    } else {
        size as int
    })
    &&& forall|k: int|
        0 <= k < page.records@.len() ==> *(#[trigger] page.records@[k])
            == env.attestations.records@[ids[offset + k]]
    &&& page.next_offset == (if rest > size {
        (offset + size) as u64
    } else {
        page.total
    })
}

proof fn filter_of_prefix(s: Seq<u64>, keep: spec_fn(u64) -> bool, i: int)
    requires
        0 <= i <= s.len(),
    ensures
        s.take(i).filter(keep).len() <= s.filter(keep).len(),
        s.take(i).filter(keep) == s.filter(keep).take(s.take(i).filter(keep).len() as int),
{
    assert(s =~= s.take(i) + s.skip(i));
    Seq::filter_distributes_over_add(s.take(i), s.skip(i), keep);
    let a = s.take(i).filter(keep);
    let b = s.skip(i).filter(keep);
    assert((a + b).take(a.len() as int) =~= a);
}

/// The ledger after a batch was accepted.
pub open spec fn batch_accepted(
    before: Ledger,
    after: Ledger,
    caller: Address,
    attestations: &Vec<AttestationInput>,
    out: Vec<u64>,
) -> bool {
    let n = attestations@.len() as int;
    &&& out@ == batch_ids(before.attestations.counter, n)
    &&& after == (Ledger {
        rates: after.rates,
        attestations: after.attestations,
        ..before
    })
    &&& rate_counted(
        before.rates,
        after.rates,
        caller,
        batch_step(before, caller, n)->0,
    )
    &&& batch_stored(before.attestations, after.attestations, attestations@)
}

impl AnchorKitContract {
    /// Requires a signature of the right length by an issuer with a key, and that
    /// it has verified.
    pub fn judge_signature(env: &Ledger, issuer: &Address, signature: &Bytes, verified: bool) -> (r:
        Result<(), ContractError>)
        ensures
            follows(r, judged_refusal(*env, *issuer, signature@, verified)),
    {
        if !env.attestors.public_keys.has(issuer) {
            return Err(ContractError::Code(ErrorCode::UnauthorizedAttestor));
        }
        if signature.len() != SIGNATURE_BYTES {
            return Err(ContractError::Code(ErrorCode::SignatureVerificationFailed));
        }
        if !verified {
            return Err(ContractError::SignatureInvalid);
        }
        Ok(())
    }

    /// Requires that the signature of a payload hash verifies under the key of
    /// its issuer.
    pub(crate) fn verify_attestation_signature(
        env: &Ledger,
        issuer: &Address,
        payload_hash: &Bytes,
        signature: &Bytes,
    ) -> (r: Result<(), ContractError>)
        ensures
            follows(r, signature_refusal(*env, *issuer, payload_hash@, signature@)),
    {
        let verified = match env.attestors.public_keys.get(issuer) {
            Some(key) => signature.len() == SIGNATURE_BYTES && host_ed25519(
                key,
                &payload_hash.data,
                &signature.data,
            ),
            None => false,
        };
        Self::judge_signature(env, issuer, signature, verified)
    }

    pub(crate) fn check_timestamp(timestamp: u64) -> (r: Result<(), ContractError>)
        ensures
            follows(r, timestamp_refusal(timestamp)),
    {
        if timestamp == 0 {
            return Err(ContractError::Code(ErrorCode::InvalidTimestamp));
        }
        Ok(())
    }

    pub(crate) fn used_by(env: &Ledger, issuer: &Address, payload_hash: &Bytes) -> (r: bool)
        ensures
            r == is_used(*env, *issuer, payload_hash@),
    {
        env.attestations.used.has(&(*issuer, payload_hash.copy()))
    }

    /// Counts and announces a replay. A refused submission changes nothing, so
    /// to put it on record is a call of its own.
    pub fn note_replay(env: &mut Ledger, issuer: &Address, payload_hash: &Bytes)
        ensures
            replay_noted(*old(env), *final(env), *issuer, payload_hash@),
    {
        let seen: u64 = match env.attestations.replays.get(payload_hash) {
            Some(n) => *n,
            None => 0,
        };
        env.attestations.replays.set(payload_hash.copy(), seen.saturating_add(1));
        env.attestations.replay_total = env.attestations.replay_total.saturating_add(1);
        env.publish(Event::ReplayDetected(*issuer, payload_hash.copy()));
    }

    /// Stores an attestation under the next number.
    pub(crate) fn store_attestation(
        env: &mut Ledger,
        issuer: Address,
        subject: Address,
        timestamp: u64,
        payload_hash: Bytes,
        signature: Bytes,
    ) -> (id: u64)
        requires
            old(env).attestations.counter < u64::MAX,
        ensures
            id == old(env).attestations.counter,
            *final(env) == (Ledger {
                attestations: AttestationState {
                    counter: final(env).attestations.counter,
                    records: final(env).attestations.records,
                    index: final(env).attestations.index,
                    used: final(env).attestations.used,
                    ..old(env).attestations
                },
                ..*old(env)
            }),
            attestation_stored(
                old(env).attestations,
                final(env).attestations,
                issuer,
                subject,
                timestamp,
                payload_hash@,
                signature@,
            ),
    {
        let id: u64 = env.attestations.counter;
        env.attestations.counter = id + 1;
        let key = payload_hash.copy();
        let attestation = Attestation {
            id,
            issuer,
            subject,
            timestamp,
            payload_hash,
            signature,
            schema_version: SCHEMA_V1,
        };
        env.attestations.records.set(id, attestation);
        env.attestations.index.push(id);
        env.attestations.used.set((issuer, key), id);
        id
    }

    pub(crate) fn count_accepted(env: &mut Ledger)
        ensures
            *final(env) == (Ledger {
                attestations: AttestationState {
                    accepted_total: crate::arith::capped_sum(
                        old(env).attestations.accepted_total,
                        1,
                    ),
                    ..old(env).attestations
                },
                ..*old(env)
            }),
    {
        env.attestations.accepted_total = env.attestations.accepted_total.saturating_add(1);
    }

    /// Goes on with a submission whose checks have passed.
    fn accept_submission(
        env: &mut Ledger,
        issuer: Address,
        subject: Address,
        timestamp: u64,
        payload_hash: Bytes,
        signature: Bytes,
    ) -> (r: Result<u64, ContractError>)
        ensures
            submission_outcome(
                *old(env),
                *final(env),
                r,
                issuer,
                subject,
                timestamp,
                payload_hash@,
                signature@,
            ),
            r is Ok ==> final(env).events == old(env).events,
    {
        if Self::used_by(env, &issuer, &payload_hash) {
            return Err(ContractError::Code(ErrorCode::ReplayAttack));
        }
        let count = match Self::check_rate_limit(env, &issuer) {
            Err(e) => {
                return Err(e);
            },
            Ok(s) => s,
        };
        if env.attestations.counter == u64::MAX {
            return Err(ContractError::Code(ErrorCode::AttestorCapacityExceeded));
        }
        env.rates.states.set(issuer, count);
        let id: u64 = Self::store_attestation(
            env,
            issuer,
            subject,
            timestamp,
            payload_hash,
            signature,
        );
        Self::count_accepted(env);
        Ok(id)
    }

    /// Records an attestation whose payload hash its issuer has signed.
    pub fn submit_attestation(
        env: &mut Ledger,
        issuer: Address,
        subject: Address,
        timestamp: u64,
        payload_hash: Bytes,
        signature: Bytes,
    ) -> (r: Result<u64, ContractError>)
        ensures
            match submit_refusal(
                *old(env),
                issuer,
                timestamp,
                payload_hash@,
                signature@,
            ) {
                Some(e) => r == Err::<u64, ContractError>(e) && *final(env) == *old(env),
                None => {
                    &&& submission_outcome(
                        *old(env),
                        *final(env),
                        r,
                        issuer,
                        subject,
                        timestamp,
                        payload_hash@,
                        signature@,
                    )
                    &&& r is Ok ==> {
                        &&& final(env).events@ == old(env).events@.push(final(env).events@.last())
                        &&& announces_attestation(
                            final(env).events@.last(),
                            r->Ok_0,
                            subject,
                            payload_hash@,
                            timestamp,
                        )
                    }
                },
            },
    {
        if let Err(e) = env.require_auth(&issuer) {
            return Err(e);
        }
        if payload_hash.len() > MAX_PAYLOAD_HASH_BYTES as usize {
            return Err(ContractError::Code(ErrorCode::ValidationError));
        }
        if let Err(e) = env.check_attestor(&issuer) {
            return Err(e);
        }
        if let Err(e) = Self::verify_attestation_signature(
            env,
            &issuer,
            &payload_hash,
            &signature,
        ) {
            return Err(e);
        }
        if let Err(e) = Self::check_timestamp(timestamp) {
            return Err(e);
        }
        let announced = payload_hash.copy();
        match Self::accept_submission(env, issuer, subject, timestamp, payload_hash, signature) {
            Err(e) => Err(e),
            Ok(id) => {
                env.publish(
                    Event::AttestationRecorded(
                        id,
                        subject,
                        AttestEvent { payload_hash: announced, timestamp },
                    ),
                );
                Ok(id)
            },
        }
    }

    fn require_inputs(env: &Ledger, inputs: &Vec<AttestationInput>) -> (r: Result<
        (),
        ContractError,
    >)
        ensures
            follows(r, inputs_refusal(*env, inputs@)),
    {
        let mut i: usize = 0;
        assert(inputs@.take(0).len() == 0);
        while i < inputs.len()
            invariant
                0 <= i <= inputs@.len(),
                inputs_refusal(*env, inputs@.take(i as int)) is None,
            decreases inputs@.len() - i,
        {
            let entry = &inputs[i];
            proof {
                assert(inputs@.take(i + 1).drop_last() =~= inputs@.take(i as int));
                assert(inputs@.take(i + 1).last() == *entry);
            }
            if let Err(e) = Self::verify_attestation_signature(
                env,
                &entry.issuer,
                &entry.payload_hash,
                &entry.signature,
            ) {
                proof {
                    first_refusal_stays(*env, inputs@, i + 1);
                }
                return Err(e);
            }
            if let Err(e) = Self::check_timestamp(entry.timestamp) {
                proof {
                    first_refusal_stays(*env, inputs@, i + 1);
                }
                return Err(e);
            }
            if Self::used_by(env, &entry.issuer, &entry.payload_hash) {
                proof {
                    first_refusal_stays(*env, inputs@, i + 1);
                }
                return Err(ContractError::Code(ErrorCode::ReplayAttack));
            }
            i = i + 1;
        }
        assert(inputs@.take(i as int) =~= inputs@);
        Ok(())
    }

    /// The count of an address after a batch, under the limit for everyone.
    fn check_batch_limit(env: &Ledger, caller: &Address, n: u32) -> (r: Result<
        RateLimitState,
        ContractError,
    >)
        requires
            n <= MAX_BATCH_SIZE,
        ensures
            match batch_step(*env, *caller, n as int) {
                Some(s) => r == Ok::<RateLimitState, ContractError>(s),
                None => r == Err::<RateLimitState, ContractError>(
                    ContractError::Code(ErrorCode::RateLimitExceeded),
                ),
            },
    {
        let config = Self::get_rate_limit_config(env);
        let slots: u32 = n * BATCH_ATTESTATION_RATE_MULTIPLIER;
        let current: u32 = env.clock.sequence;
        let mut state = RateLimitState { submission_count: 0, window_start_ledger: current };
        if let Some(s) = env.rates.states.get(caller) {
            if !is_window_expired(s.window_start_ledger, config.window_length, current) {
                state = *s;
            }
        }
        let count: u32 = state.submission_count.saturating_add(slots);
        if count > config.max_submissions {
            return Err(ContractError::Code(ErrorCode::RateLimitExceeded));
        }
        state.submission_count = count;
        Ok(state)
    }

    /// Records a batch of attestations: all of them, or none. A batch counts
    /// five times its size against the rate limit.
    pub fn submit_attestation_batch(
        env: &mut Ledger,
        caller: Address,
        attestations: &Vec<AttestationInput>,
    ) -> (r: Result<Vec<u64>, ContractError>)
        ensures
            follows(r, batch_refusal(*old(env), caller, attestations@)),
            r is Err ==> *final(env) == *old(env),
            r is Ok && attestations@.len() == 0 ==> {
                &&& r->Ok_0@.len() == 0
                &&& *final(env) == *old(env)
            },
            r is Ok && attestations@.len() > 0 ==> batch_accepted(
                *old(env),
                *final(env),
                caller,
                attestations,
                r->Ok_0,
            ),
    {
        if let Err(e) = env.require_auth(&caller) {
            return Err(e);
        }
        if let Err(e) = env.check_attestor(&caller) {
            return Err(e);
        }
        let n: usize = attestations.len();
        if n > MAX_BATCH_SIZE {
            return Err(ContractError::Code(ErrorCode::BatchSizeExceeded));
        }
        let mut ids: Vec<u64> = Vec::new();
        if n == 0 {
            return Ok(ids);
        }
        let count = match Self::check_batch_limit(env, &caller, n as u32) {
            Err(e) => {
                return Err(e);
            },
            Ok(s) => s,
        };
        if let Err(e) = Self::require_inputs(env, attestations) {
            return Err(e);
        }
        if env.attestations.counter > u64::MAX - (n as u64) {
            return Err(ContractError::Code(ErrorCode::AttestorCapacityExceeded));
        }
        env.rates.states.set(caller, count);
        let ghost mid = *env;
        let ghost first = mid.attestations.counter;
        let mut i: usize = 0;
        proof {
            let none = attestations@.take(0);
            assert(none.len() == 0);
            assert(mid.attestations.index@ + batch_ids(first, 0) =~= mid.attestations.index@);
            assert(batch_stored(mid.attestations, env.attestations, none));
        }
        while i < attestations.len()
            invariant
                0 <= i <= attestations@.len(),
                first == mid.attestations.counter,
                first + attestations@.len() <= u64::MAX,
                *env == (Ledger { attestations: env.attestations, ..mid }),
                batch_stored(mid.attestations, env.attestations, attestations@.take(i as int)),
                ids@ == batch_ids(first, i as int),
            decreases attestations@.len() - i,
        {
            let entry = &attestations[i];
            let ghost prev = env.attestations;
            let id: u64 = Self::store_attestation(
                env,
                entry.issuer,
                entry.subject,
                entry.timestamp,
                entry.payload_hash.copy(),
                entry.signature.copy(),
            );
            ids.push(id);
            proof {
                let done = attestations@.take(i as int);
                let next = attestations@.take(i + 1);
                let now = env.attestations;
                assert(next.drop_last() =~= done);
                assert(next.last() == *entry);
                assert(ids@ =~= batch_ids(first, i + 1));
                assert(now.index@ =~= mid.attestations.index@ + batch_ids(first, i + 1));
                assert forall|k: int| 0 <= k < next.len() implies ({
                    let input = #[trigger] next[k];
                    let kid = (first + k) as u64;
                    &&& now.records@.contains_key(kid)
                    &&& is_attestation(
                        now.records@[kid],
                        kid,
                        input.issuer,
                        input.subject,
                        input.timestamp,
                        input.payload_hash@,
                        input.signature@,
                    )
                }) by {
                    if k < i {
                        assert(next[k] == done[k]);
                    }
                }
                assert(batch_stored(mid.attestations, now, next));
            }
            i = i + 1;
        }
        assert(attestations@.take(i as int) =~= attestations@);
        Ok(ids)
    }

    /// Records an attestation, where asked for only about a subject whose
    /// identity check is approved.
    pub fn submit_attestation_kyc_check(
        env: &mut Ledger,
        issuer: Address,
        subject: Address,
        timestamp: u64,
        payload_hash: Bytes,
        signature: Bytes,
        require_kyc: bool,
    ) -> (r: Result<u64, ContractError>)
        ensures
            match kyc_submit_refusal(
                *old(env),
                issuer,
                subject,
                timestamp,
                payload_hash@,
                signature@,
                require_kyc,
            ) {
                Some(e) => r == Err::<u64, ContractError>(e) && *final(env) == *old(env),
                None => {
                    &&& submission_outcome(
                        *old(env),
                        *final(env),
                        r,
                        issuer,
                        subject,
                        timestamp,
                        payload_hash@,
                        signature@,
                    )
                    &&& r is Ok ==> {
                        let n = old(env).events@.len() as int;
                        &&& final(env).events@ == old(env).events@.push(
                            final(env).events@[n],
                        ).push(final(env).events@[n + 1])
                        &&& announces_attestation(
                            final(env).events@[n],
                            r->Ok_0,
                            subject,
                            payload_hash@,
                            timestamp,
                        )
                        &&& announces_webhook(
                            final(env).events@[n + 1],
                            r->Ok_0,
                            payload_hash@,
                            timestamp,
                        )
                    }
                },
            },
    {
        if let Err(e) = env.require_auth(&issuer) {
            return Err(e);
        }
        if let Err(e) = env.check_attestor(&issuer) {
            return Err(e);
        }
        if let Err(e) = Self::verify_attestation_signature(
            env,
            &issuer,
            &payload_hash,
            &signature,
        ) {
            return Err(e);
        }
        if let Err(e) = Self::check_timestamp(timestamp) {
            return Err(e);
        }
        if require_kyc {
            if let Err(e) = Self::require_kyc(env, subject) {
                return Err(e);
            }
        }
        let announced = payload_hash.copy();
        let due = payload_hash.copy();
        match Self::accept_submission(env, issuer, subject, timestamp, payload_hash, signature) {
            Err(e) => Err(e),
            Ok(id) => {
                env.publish(
                    Event::AttestationRecorded(
                        id,
                        subject,
                        AttestEvent { payload_hash: announced, timestamp },
                    ),
                );
                env.publish(
                    Event::WebhookDue(
                        WebhookEvent {
                            event_type: "attestation_submitted",
                            transaction_id: id,
                            timestamp,
                            payload_hash: due,
                        },
                    ),
                );
                Ok(id)
            },
        }
    }

    /// The attestation with a given number.
    pub fn get_attestation(env: &Ledger, id: u64) -> (r: Result<&Attestation, ContractError>)
        ensures
            follows(
                r,
                refuse_when(
                    !env.attestations.records@.contains_key(id),
                    ErrorCode::AttestationNotFound,
                ),
            ),
            r is Ok ==> *r->Ok_0 == env.attestations.records@[id],
    {
        match env.attestations.records.get(&id) {
            Some(a) => Ok(a),
            None => Err(ContractError::Code(ErrorCode::AttestationNotFound)),
        }
    }

    /// The number of the attestation by which an issuer used a payload.
    pub fn get_attestation_by_hash(env: &Ledger, issuer: Address, payload_hash: Bytes) -> (r: Result<
        u64,
        ContractError,
    >)
        ensures
            follows(
                r,
                refuse_when(
                    !is_used(*env, issuer, payload_hash@),
                    ErrorCode::AttestationNotFound,
                ),
            ),
            r is Ok ==> r->Ok_0 == env.attestations.used@[(issuer, payload_hash@)],
    {
        match env.attestations.used.get(&(issuer, payload_hash)) {
            Some(id) => Ok(*id),
            None => Err(ContractError::Code(ErrorCode::AttestationNotFound)),
        }
    }

    fn passes(env: &Ledger, filter: &Option<AttestationFilter>, id: u64) -> (r: bool)
        ensures
            r == matches(*env, *filter, id),
    {
        match env.attestations.records.get(&id) {
            None => false,
            Some(record) => {
                if let Some(f) = filter {
                    if let Some(min_id) = f.min_id {
                        if id < min_id {
                            return false;
                        }
                    }
                    if let Some(issuer) = f.issuer {
                        if !record.issuer.equals(&issuer) {
                            return false;
                        }
                    }
                    if let Some(subject) = f.subject {
                        if !record.subject.equals(&subject) {
                            return false;
                        }
                    }
                    if let Some(from_ts) = f.from_timestamp {
                        if record.timestamp < from_ts {
                            return false;
                        }
                    }
                    if let Some(to_ts) = f.to_timestamp {
                        if record.timestamp > to_ts {
                            return false;
                        }
                    }
                }
                true
            },
        }
    }

    /// A page of the attestations that pass a filter: those behind the first
    /// `offset` ones, `limit` and fifty of them at most. The next offset leads
    /// on while there are more, and is the total otherwise.
    pub fn get_attestations_paginated(
        env: &Ledger,
        offset: u64,
        limit: u64,
        filter: Option<AttestationFilter>,
    ) -> (r: Result<AttestationPage<'_>, ContractError>)
        ensures
            follows(r, refuse_when(limit == 0, ErrorCode::ValidationError)),
            r is Ok ==> is_page(*env, offset, limit, filter, r->Ok_0),
    {
        if limit == 0 {
            return Err(ContractError::Code(ErrorCode::ValidationError));
        }
        let size: u64 = if limit < 50 {
            limit
        } else {
            50
        };
        let total: u64 = env.attestations.index.len() as u64;
        let mut records: Vec<&Attestation> = Vec::new();
        let mut next_offset: u64 = total;
        let mut skipped: u64 = 0;
        let mut full = false;
        let mut i: usize = 0;
        let ghost index = env.attestations.index@;
        let ghost keep = |id: u64| matches(*env, filter, id);
        let ghost ids = matching(*env, filter);
        proof {
            reveal(Seq::filter);
            assert(index.take(0).filter(keep).len() == 0);
        }
        while i < env.attestations.index.len() && !full
            invariant
                0 <= i <= index.len(),
                index == env.attestations.index@,
                total == index.len(),
                size == page_size(limit),
                keep == (|id: u64| matches(*env, filter, id)),
                ids == matching(*env, filter),
                !full ==> next_offset == total && skipped + records@.len() == index.take(
                    i as int,
                ).filter(keep).len(),
                skipped <= offset,
                records@.len() > 0 ==> skipped == offset,
                records@.len() <= size,
                offset + records@.len() <= ids.len() || records@.len() == 0,
                forall|k: int|
                    0 <= k < records@.len() ==> *(#[trigger] records@[k])
                        == env.attestations.records@[ids[offset + k]],
                full ==> records@.len() == size && ids.len() > offset + size && next_offset
                    == offset + size,
            decreases index.len() - i,
        {
            let id: u64 = env.attestations.index[i];
            let ghost seen = index.take(i as int).filter(keep);
            let ghost seen_next = index.take(i + 1).filter(keep);
            proof {
                reveal(Seq::filter);
                assert(index.take(i + 1).drop_last() =~= index.take(i as int));
                assert(index.take(i + 1).last() == id);
                filter_of_prefix(index, keep, i + 1);
                filter_of_prefix(index, keep, i as int);
            }
            if Self::passes(env, &filter, id) {
                assert(seen_next == seen.push(id));
                assert(ids[seen.len() as int] == id) by {
                    assert(ids.take(seen_next.len() as int)[seen.len() as int] == id);
                }
                if skipped < offset {
                    skipped = skipped + 1;
                } else if records.len() as u64 >= size {
                    next_offset = offset.saturating_add(size);
                    full = true;
                } else if let Some(record) = env.attestations.records.get(&id) {
                    records.push(record);
                }
            }
            i = i + 1;
        }
        proof {
            if !full {
                assert(index.take(i as int) =~= index);
            }
        }
        Ok(AttestationPage { records, next_offset, total })
    }

    /// How many submissions were accepted, and how many were replays.
    pub fn get_replay_metrics(env: &Ledger) -> (m: ReplayMetrics)
        ensures
            m == (ReplayMetrics {
                total_detected: env.attestations.replay_total,
                total_accepted: env.attestations.accepted_total,
            }),
    {
        ReplayMetrics {
            total_detected: env.attestations.replay_total,
            total_accepted: env.attestations.accepted_total,
        }
    }

    /// How often a payload was replayed.
    pub fn get_replay_count_for_id(env: &Ledger, request_id: Bytes) -> (n: u64)
        ensures
            n == replays_of(env.attestations, request_id@),
    {
        match env.attestations.replays.get(&request_id) {
            Some(n) => *n,
            None => 0,
        }
    }
}

proof fn first_refusal_stays(env: Ledger, inputs: Seq<AttestationInput>, n: int)
    requires
        0 <= n <= inputs.len(),
        inputs_refusal(env, inputs.take(n)) is Some,
    ensures
        inputs_refusal(env, inputs) == inputs_refusal(env, inputs.take(n)),
    decreases inputs.len(),
{
    if n == inputs.len() {
        assert(inputs.take(n) =~= inputs);
    } else {
        assert(inputs.drop_last().take(n) =~= inputs.take(n));
        first_refusal_stays(env, inputs.drop_last(), n);
    }
}

/// Why a submission within a session is refused.
pub open spec fn session_refusal(
    env: Ledger,
    session_id: u64,
    issuer: Address,
    timestamp: u64,
    hash: Seq<u8>,
    signature: Seq<u8>,
) -> Option<ContractError> {
    either(
        auth_refusal(env, issuer),
        either(
            open_refusal(env, session_id),
            either(
                attestor_refusal(env, issuer),
                either(
                    signature_refusal(env, issuer, hash, signature),
                    either(
                        rate_refusal(env, issuer),
                        either(
                            timestamp_refusal(timestamp),
                            either(
                                refuse_when(
                                    env.attestations.session_used@.contains_key(
                                        (session_id, hash),
                                    ) || is_used(env, issuer, hash),
                                    ErrorCode::ReplayAttack,
                                ),
                                number_refusal(env),
                            ),
                        ),
                    ),
                ),
            ),
        ),
    )
}

/// The ledger after a submission within a session was accepted under the next
/// number.
pub open spec fn session_submission(
    before: Ledger,
    after: Ledger,
    session_id: u64,
    issuer: Address,
    subject: Address,
    timestamp: u64,
    hash: Seq<u8>,
    signature: Seq<u8>,
) -> bool {
    let id = before.attestations.counter;
    let s = opened_sessions(before, session_id)[session_id];
    let n = before.events@.len() as int;
    &&& after == (Ledger {
        sessions: after.sessions,
        rates: after.rates,
        attestations: AttestationState {
            session_used: after.attestations.session_used,
            counter: after.attestations.counter,
            records: after.attestations.records,
            index: after.attestations.index,
            used: after.attestations.used,
            accepted_total: crate::arith::capped_sum(before.attestations.accepted_total, 1),
            ..before.attestations
        },
        events: after.events,
        ..before
    })
    &&& rate_counted(before.rates, after.rates, issuer, rate_step(before, issuer)->0)
    &&& after.attestations.session_used@ == before.attestations.session_used@.insert(
        (session_id, hash),
        true,
    )
    &&& attestation_stored(
        before.attestations,
        after.attestations,
        issuer,
        subject,
        timestamp,
        hash,
        signature,
    )
    &&& after.sessions.records@ == opened_sessions(before, session_id).insert(
        session_id,
        (Session { nonce: (s.nonce + 1) as u64, ..s }),
    )
    &&& operation_logged(before, after.sessions, session_id, issuer, "attest"@, id)
    &&& after.events@ == before.events@.push(after.events@[n]).push(
        operation_announced(before, session_id, "attest"),
    )
    &&& announces_attestation(after.events@[n], id, subject, hash, timestamp)
}

impl AnchorKitContract {
    /// Records an attestation within a session. Each payload can be submitted
    /// once in a session, and once by an issuer over all.
    pub fn submit_attestation_with_session(
        env: &mut Ledger,
        session_id: u64,
        issuer: Address,
        subject: Address,
        timestamp: u64,
        payload_hash: Bytes,
        signature: Bytes,
    ) -> (r: Result<u64, ContractError>)
        requires
            can_log(*old(env)),
            old(env).sessions.records@.contains_key(session_id) ==> old(
                env,
            ).sessions.records@[session_id].nonce < u64::MAX,
        ensures
            follows(
                r,
                session_refusal(
                    *old(env),
                    session_id,
                    issuer,
                    timestamp,
                    payload_hash@,
                    signature@,
                ),
            ),
            r is Err ==> *final(env) == *old(env),
            r is Ok ==> {
                &&& r->Ok_0 == old(env).attestations.counter
                &&& session_submission(
                    *old(env),
                    *final(env),
                    session_id,
                    issuer,
                    subject,
                    timestamp,
                    payload_hash@,
                    signature@,
                )
            },
    {
        if let Err(e) = env.require_auth(&issuer) {
            return Err(e);
        }
        if let Err(e) = Self::check_session_open(env, session_id) {
            return Err(e);
        }
        if let Err(e) = env.check_attestor(&issuer) {
            return Err(e);
        }
        if let Err(e) = Self::verify_attestation_signature(
            env,
            &issuer,
            &payload_hash,
            &signature,
        ) {
            return Err(e);
        }
        let count = match Self::check_rate_limit(env, &issuer) {
            Err(e) => {
                return Err(e);
            },
            Ok(s) => s,
        };
        if let Err(e) = Self::check_timestamp(timestamp) {
            return Err(e);
        }
        if env.attestations.session_used.has(&(session_id, payload_hash.copy()))
            || Self::used_by(env, &issuer, &payload_hash) {
            return Err(ContractError::Code(ErrorCode::ReplayAttack));
        }
        if env.attestations.counter == u64::MAX {
            return Err(ContractError::Code(ErrorCode::AttestorCapacityExceeded));
        }
        Self::open_session(env, session_id);
        env.rates.states.set(issuer, count);
        env.attestations.session_used.set((session_id, payload_hash.copy()), true);
        let announced = payload_hash.copy();
        let id: u64 = Self::store_attestation(
            env,
            issuer,
            subject,
            timestamp,
            payload_hash,
            signature,
        );
        if let Some(session) = env.sessions.records.get_mut(&session_id) {
            session.nonce = session.nonce + 1;
        }
        let log = Self::log_operation(env, session_id, issuer, "attest", id);
        env.publish(
            Event::AttestationRecorded(
                id,
                subject,
                AttestEvent { payload_hash: announced, timestamp },
            ),
        );
        env.publish(Event::AuditLogged(log));
        Self::count_accepted(env);
        Ok(id)
    }
}

/// A submission is accepted only where the signature of its payload hash
/// verifies under the key of its issuer, whichever way it is made.
pub proof fn accepted_attestations_are_signed(
    env: Ledger,
    session_id: u64,
    issuer: Address,
    subject: Address,
    timestamp: u64,
    hash: Seq<u8>,
    signature: Seq<u8>,
    require_kyc: bool,
)
    ensures
        submit_refusal(env, issuer, timestamp, hash, signature) is None ==> is_signed(
            env,
            issuer,
            hash,
            signature,
        ),
        kyc_submit_refusal(env, issuer, subject, timestamp, hash, signature, require_kyc) is None
            ==> is_signed(env, issuer, hash, signature),
        session_refusal(env, session_id, issuer, timestamp, hash, signature) is None
            ==> is_signed(env, issuer, hash, signature),
        traced_refusal(env, issuer, timestamp, hash, signature) is None ==> is_signed(
            env,
            issuer,
            hash,
            signature,
        ),
{
}

/// A batch is accepted only where each of its entries is signed by its issuer.
pub proof fn accepted_batches_are_signed(
    env: Ledger,
    caller: Address,
    inputs: Seq<AttestationInput>,
    i: int,
)
    requires
        batch_refusal(env, caller, inputs) is None,
        0 <= i < inputs.len(),
    ensures
        is_signed(env, inputs[i].issuer, inputs[i].payload_hash@, inputs[i].signature@),
{
    accepted_inputs_are_signed(env, inputs, i);
}

proof fn accepted_inputs_are_signed(env: Ledger, inputs: Seq<AttestationInput>, i: int)
    requires
        inputs_refusal(env, inputs) is None,
        0 <= i < inputs.len(),
    ensures
        is_signed(env, inputs[i].issuer, inputs[i].payload_hash@, inputs[i].signature@),
    decreases inputs.len(),
{
    if i < inputs.len() - 1 {
        accepted_inputs_are_signed(env, inputs.drop_last(), i);
    }
}

/// A payload that an issuer has used is refused from then on: a submission of
/// it is a replay, and it stays used.
pub proof fn used_payloads_are_replays(
    before: Ledger,
    after: Ledger,
    r: Result<u64, ContractError>,
    issuer: Address,
    subject: Address,
    timestamp: u64,
    hash: Seq<u8>,
    signature: Seq<u8>,
)
    requires
        submission_outcome(before, after, r, issuer, subject, timestamp, hash, signature),
    ensures
        r is Ok ==> is_used(after, issuer, hash) && !is_used(before, issuer, hash),
        is_used(before, issuer, hash) ==> r == Err::<u64, ContractError>(
            ContractError::Code(ErrorCode::ReplayAttack),
        ),
        is_used(before, issuer, hash) ==> is_used(after, issuer, hash),
{
}

/// Within a session, too, a payload that its issuer has used or that was
/// submitted in the session before is refused; once accepted it is used both
/// ways.
pub proof fn sessions_refuse_used_payloads(
    before: Ledger,
    after: Ledger,
    session_id: u64,
    issuer: Address,
    subject: Address,
    timestamp: u64,
    hash: Seq<u8>,
    signature: Seq<u8>,
)
    ensures
        is_used(before, issuer, hash) || before.attestations.session_used@.contains_key(
            (session_id, hash),
        ) ==> session_refusal(
            before,
            session_id,
            issuer,
            timestamp,
            hash,
            signature,
        ) is Some,
        session_submission(
            before,
            after,
            session_id,
            issuer,
            subject,
            timestamp,
            hash,
            signature,
        ) ==> is_used(after, issuer, hash) && after.attestations.session_used@.contains_key(
            (session_id, hash),
        ),
{
}

/// An attestation that was accepted reads back under its number and by its
/// payload.
pub proof fn accepted_attestations_read_back(
    before: Ledger,
    after: Ledger,
    r: Result<u64, ContractError>,
    issuer: Address,
    subject: Address,
    timestamp: u64,
    hash: Seq<u8>,
    signature: Seq<u8>,
)
    requires
        submission_outcome(before, after, r, issuer, subject, timestamp, hash, signature),
        r is Ok,
    ensures
        after.attestations.records@.contains_key(r->Ok_0),
        is_attestation(
            after.attestations.records@[r->Ok_0],
            r->Ok_0,
            issuer,
            subject,
            timestamp,
            hash,
            signature,
        ),
        after.attestations.used@[(issuer, hash)] == r->Ok_0,
        after.attestations.counter == r->Ok_0 + 1,
        forall|id: u64|
            id != r->Ok_0 ==> #[trigger] after.attestations.records@.contains_key(id)
                == before.attestations.records@.contains_key(id),
{
}

/// A refused submission leaves the ledger as it was.
pub proof fn refusals_change_nothing(
    before: Ledger,
    after: Ledger,
    r: Result<u64, ContractError>,
    issuer: Address,
    subject: Address,
    timestamp: u64,
    hash: Seq<u8>,
    signature: Seq<u8>,
)
    requires
        submission_outcome(before, after, r, issuer, subject, timestamp, hash, signature),
        r is Err,
    ensures
        after == before,
{
}

/// A replay that was put on record counts once for its payload and once over
/// all, and for no other payload.
pub proof fn replays_are_counted(
    before: Ledger,
    after: Ledger,
    issuer: Address,
    hash: Seq<u8>,
    other: Seq<u8>,
)
    requires
        replay_noted(before, after, issuer, hash),
    ensures
        replays_of(before.attestations, hash) < u64::MAX ==> replays_of(after.attestations, hash)
            == replays_of(before.attestations, hash) + 1,
        before.attestations.replay_total < u64::MAX ==> after.attestations.replay_total
            == before.attestations.replay_total + 1,
        other != hash ==> replays_of(after.attestations, other) == replays_of(
            before.attestations,
            other,
        ),
{
}

/// Whether the index lists the stored attestations in ascending order, all of
/// them below the counter.
pub open spec fn index_ascends(a: AttestationState) -> bool {
    &&& forall|i: int, j: int| 0 <= i < j < a.index@.len() ==> a.index@[i] < a.index@[j]
    &&& forall|i: int|
        0 <= i < a.index@.len() ==> (#[trigger] a.index@[i]) < a.counter && a.records@.contains_key(
            a.index@[i],
        )
}

/// Before anything is stored, the index is in ascending order.
pub proof fn an_empty_index_ascends(a: AttestationState)
    requires
        a.blank(),
    ensures
        index_ascends(a),
{
}

/// Storing an attestation keeps the index in ascending order, so that pages
/// come in the order of the identifiers.
pub proof fn identifiers_ascend(
    before: AttestationState,
    after: AttestationState,
    issuer: Address,
    subject: Address,
    timestamp: u64,
    hash: Seq<u8>,
    signature: Seq<u8>,
)
    requires
        index_ascends(before),
        attestation_stored(before, after, issuer, subject, timestamp, hash, signature),
    ensures
        index_ascends(after),
{
}

/// Storing a batch keeps the index in ascending order.
pub proof fn batches_ascend(
    before: AttestationState,
    after: AttestationState,
    inputs: Seq<AttestationInput>,
)
    requires
        index_ascends(before),
        batch_stored(before, after, inputs),
    ensures
        index_ascends(after),
{
    let n = inputs.len() as int;
    let first = before.counter;
    let old_len = before.index@.len() as int;
    assert forall|i: int| 0 <= i < after.index@.len() implies (#[trigger] after.index@[i]) < after.counter
        && after.records@.contains_key(after.index@[i]) by {
        if i < old_len {
            let id = before.index@[i];
            assert(after.index@[i] == id);
            assert(before.records@.contains_key(id));
            assert(after.records@.contains_key(id) == before.records@.contains_key(id));
        } else {
            let k = i - old_len;
            assert(after.index@[i] == (first + k) as u64);
            let input = inputs[k];
            assert(after.records@.contains_key((first + k) as u64));
        }
    }
}

/// Every payload of a batch is used up once the batch is stored.
pub proof fn batches_use_up_payloads(
    before: AttestationState,
    after: AttestationState,
    inputs: Seq<AttestationInput>,
    i: int,
)
    requires
        batch_stored(before, after, inputs),
        0 <= i < inputs.len(),
    ensures
        after.used@.contains_key((inputs[i].issuer, inputs[i].payload_hash@)),
{
    used_after_holds(before.used@, inputs, before.counter, i);
}

proof fn accepted_inputs_are_new(env: Ledger, inputs: Seq<AttestationInput>, i: int)
    requires
        inputs_refusal(env, inputs) is None,
        0 <= i < inputs.len(),
    ensures
        !is_used(env, inputs[i].issuer, inputs[i].payload_hash@),
    decreases inputs.len(),
{
    if i < inputs.len() - 1 {
        accepted_inputs_are_new(env, inputs.drop_last(), i);
    }
}

proof fn used_after_reads_back(
    used: Map<(Address, Seq<u8>), u64>,
    inputs: Seq<AttestationInput>,
    first: u64,
    i: int,
)
    requires
        0 <= i < inputs.len(),
        forall|j: int|
            i < j < inputs.len() ==> (#[trigger] inputs[j]).issuer != inputs[i].issuer
                || inputs[j].payload_hash@ != inputs[i].payload_hash@,
    ensures
        used_after(used, inputs, first)[(inputs[i].issuer, inputs[i].payload_hash@)] == (first
            + i) as u64,
    decreases inputs.len(),
{
    if i < inputs.len() - 1 {
        let rest = inputs.drop_last();
        assert(forall|j: int| i < j < rest.len() ==> #[trigger] rest[j] == inputs[j]);
        used_after_reads_back(used, rest, first, i);
        let last = inputs[inputs.len() - 1];
        assert(last.issuer != inputs[i].issuer || last.payload_hash@ != inputs[i].payload_hash@);
    }
}

/// Every payload of a batch that is accepted was new. It reads back by the number
/// of the last entry of the batch that holds it.
pub proof fn batches_take_new_payloads(
    before: Ledger,
    after: AttestationState,
    inputs: Seq<AttestationInput>,
    i: int,
)
    requires
        inputs_refusal(before, inputs) is None,
        before.attestations.counter + inputs.len() <= u64::MAX,
        batch_stored(before.attestations, after, inputs),
        0 <= i < inputs.len(),
    ensures
        !is_used(before, inputs[i].issuer, inputs[i].payload_hash@),
        (forall|j: int|
            i < j < inputs.len() ==> (#[trigger] inputs[j]).issuer != inputs[i].issuer
                || inputs[j].payload_hash@ != inputs[i].payload_hash@) ==> after.used@[(
            inputs[i].issuer,
            inputs[i].payload_hash@,
        )] == before.attestations.counter + i,
{
    accepted_inputs_are_new(before, inputs, i);
    if forall|j: int|
        i < j < inputs.len() ==> (#[trigger] inputs[j]).issuer != inputs[i].issuer
            || inputs[j].payload_hash@ != inputs[i].payload_hash@ {
        used_after_reads_back(before.attestations.used@, inputs, before.attestations.counter, i);
    }
}

proof fn used_after_holds(
    used: Map<(Address, Seq<u8>), u64>,
    inputs: Seq<AttestationInput>,
    first: u64,
    i: int,
)
    requires
        0 <= i < inputs.len(),
    ensures
        used_after(used, inputs, first).contains_key((inputs[i].issuer, inputs[i].payload_hash@)),
    decreases inputs.len(),
{
    if i < inputs.len() - 1 {
        used_after_holds(used, inputs.drop_last(), first, i);
        assert(inputs.drop_last()[i] == inputs[i]);
    }
}

/// Where an attestation stands under an order.
pub struct SortKey {
    pub primary: u64,
    pub secondary: u64,
}

impl Ranked for SortKey {
    open spec fn before(self, other: Self) -> bool {
        self.primary < other.primary || (self.primary == other.primary && self.secondary
            <= other.secondary)
    }

    fn is_before(&self, other: &Self) -> (r: bool) {
        self.primary < other.primary || (self.primary == other.primary && self.secondary
            <= other.secondary)
    }

    proof fn before_total(a: Self, b: Self) {
    }

    proof fn before_transitive(a: Self, b: Self, c: Self) {
    }
}

/// The key of an attestation under an order. By time, attestations of the same
/// time come by their number.
pub open spec fn sort_key(a: Attestation, order: AttestationSortOrder) -> SortKey {
    match order {
        AttestationSortOrder::IdAsc => SortKey { primary: a.id, secondary: 0 },
        AttestationSortOrder::IdDesc => SortKey {
            primary: (u64::MAX - a.id) as u64,
            secondary: 0,
        },
        AttestationSortOrder::TimestampAsc => SortKey { primary: a.timestamp, secondary: a.id },
        AttestationSortOrder::TimestampDesc => SortKey {
            primary: (u64::MAX - a.timestamp) as u64,
            secondary: a.id,
        },
    }
}

/// Whether one attestation may stand before another under an order.
pub open spec fn in_order(order: AttestationSortOrder, a: Attestation, b: Attestation) -> bool {
    match order {
        AttestationSortOrder::IdAsc => a.id <= b.id,
        AttestationSortOrder::IdDesc => a.id >= b.id,
        AttestationSortOrder::TimestampAsc => a.timestamp < b.timestamp || (a.timestamp
            == b.timestamp && a.id <= b.id),
        AttestationSortOrder::TimestampDesc => a.timestamp > b.timestamp || (a.timestamp
            == b.timestamp && a.id <= b.id),
    }
}

/// Whether two attestations have the same contents.
pub open spec fn same_attestation(a: Attestation, b: Attestation) -> bool {
    &&& a.id == b.id
    &&& a.issuer == b.issuer
    &&& a.subject == b.subject
    &&& a.timestamp == b.timestamp
    &&& a.payload_hash@ == b.payload_hash@
    &&& a.signature@ == b.signature@
    &&& a.schema_version == b.schema_version
}

impl Attestation {
    /// A copy.
    pub fn copy(&self) -> (a: Self)
        ensures
            same_attestation(a, *self),
    {
        Attestation {
            id: self.id,
            issuer: self.issuer,
            subject: self.subject,
            timestamp: self.timestamp,
            payload_hash: self.payload_hash.copy(),
            signature: self.signature.copy(),
            schema_version: self.schema_version,
        }
    }
}

fn key_of(a: &Attestation, order: AttestationSortOrder) -> (k: SortKey)
    ensures
        k == sort_key(*a, order),
{
    match order {
        AttestationSortOrder::IdAsc => SortKey { primary: a.id, secondary: 0 },
        AttestationSortOrder::IdDesc => SortKey { primary: u64::MAX - a.id, secondary: 0 },
        AttestationSortOrder::TimestampAsc => SortKey { primary: a.timestamp, secondary: a.id },
        AttestationSortOrder::TimestampDesc => SortKey {
            primary: u64::MAX - a.timestamp,
            secondary: a.id,
        },
    }
}

/// The attestations in order: the same ones, each once, and those of equal rank
/// in the order in which they were given.
pub fn sort_attestations(records: &Vec<Attestation>, order: AttestationSortOrder) -> (r: Vec<
    Attestation,
>)
    ensures
        r@.len() == records@.len(),
        exists|positions: Seq<usize>|
            {
                &&& #[trigger] lists_each(positions, records@.len() as int)
                &&& is_sorted_order(
                    records@.map_values(|a: Attestation| sort_key(a, order)),
                    positions,
                )
                &&& forall|i: int|
                    0 <= i < r@.len() ==> same_attestation(
                        #[trigger] r@[i],
                        records@[positions[i] as int],
                    )
            },
        forall|i: int, j: int|
            0 <= i < j < r@.len() ==> in_order(order, #[trigger] r@[i], #[trigger] r@[j]),
{
    let n: usize = records.len();
    let mut keys: Vec<SortKey> = Vec::new();
    let mut i: usize = 0;
    let ghost all = records@.map_values(|a: Attestation| sort_key(a, order));
    while i < n
        invariant
            0 <= i <= n,
            n == records@.len(),
            all == records@.map_values(|a: Attestation| sort_key(a, order)),
            keys@ == all.take(i as int),
        decreases n - i,
    {
        keys.push(key_of(&records[i], order));
        assert(all.take(i + 1) =~= all.take(i as int).push(all[i as int]));
        i = i + 1;
    }
    assert(all.take(n as int) =~= all);
    let positions = sorted_order(&keys);
    let mut result: Vec<Attestation> = Vec::new();
    let mut k: usize = 0;
    while k < n
        invariant
            0 <= k <= n,
            n == records@.len(),
            positions@.len() == n,
            forall|j: int| 0 <= j < n ==> (#[trigger] positions@[j]) < n,
            result@.len() == k,
            forall|j: int|
                0 <= j < k ==> same_attestation(
                    #[trigger] result@[j],
                    records@[positions@[j] as int],
                ),
        decreases n - k,
    {
        result.push(records[positions[k]].copy());
        k = k + 1;
    }
    proof {
        assert(lists_each(positions@, records@.len() as int));
        assert forall|a: int, b: int| 0 <= a < b < result@.len() implies in_order(
            order,
            #[trigger] result@[a],
            #[trigger] result@[b],
        ) by {
            let x = records@[positions@[a] as int];
            let y = records@[positions@[b] as int];
            assert(same_attestation(result@[a], x));
            assert(same_attestation(result@[b], y));
            assert(keys@[positions@[a] as int] == sort_key(x, order));
            assert(keys@[positions@[b] as int] == sort_key(y, order));
            assert(sort_key(x, order).before(sort_key(y, order)));
        }
    }
    result
}

} // verus!
