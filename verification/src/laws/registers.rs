//! Laws of what changes of registers, reviews, limits and counters leave behind.
use crate::address::Address;
use crate::contract::attestors::{
    endpoint_set, profile_of, registered_by_admin, registered_in_session, restore_refusal,
    restored_by_admin, revoke_refusal, revoked_by_admin, revoked_in_session, rotation_refusal,
    session_register_refusal, session_revoke_refusal, token_ids_purged, token_key_refusal,
    token_key_rotated, token_key_set, token_length_refusal, token_length_set, token_skew_refusal,
    token_skew_set, webhook_set,
};
use crate::contract::events::Event;
use crate::contract::health::{
    health_event_counted, health_event_refusal, health_of, health_reset, health_window_recorded,
    proof_registered, windows_of,
};
use crate::contract::kyc::{
    approve_refusal, check_recorded, history_len, kyc_approved, kyc_rejected, kyc_reopened,
    kyc_status_in, kyc_submitted, reject_refusal, reopen_refusal, reviewer_refusal,
};
use crate::contract::ledger::{
    admin_refusal, delegate_refusal, duty_refusal, ContractError, Duty, Ledger,
};
use crate::contract::limits::{address_limit_set, limit_of, role_limit_set};
use crate::contract::sessions::{open_refusal, operations_of};
use crate::contract::types::{AdminRole, AnchorHealthWindow, Bytes, KycStatus};
use crate::errors::ErrorCode;
use crate::rate_limiter::RateLimitConfig;
use vstd::prelude::*;

verus! {

/// A key for tokens has thirty-two bytes and is set under the duty for it; it is
/// the key of the issuer from then on, and of nobody else.
pub proof fn token_keys_are_set(
    before: Ledger,
    after: Ledger,
    issuer: Address,
    key: Bytes,
    other: Address,
)
    ensures
        ({
            let free = duty_refusal(before, Duty::TokenSettings);
            &&& token_key_refusal(before, key) is None <==> free is None && key@.len() == 32
            &&& rotation_refusal(before, key) == token_key_refusal(before, key)
            &&& free is None && key@.len() != 32 ==> token_key_refusal(before, key) == Some(
                ContractError::Code(ErrorCode::ValidationError),
            )
        }),
        token_key_set(before, after, issuer, key) || token_key_rotated(before, after, issuer, key)
            ==> {
            &&& after.attestors.sep10_keys@.contains_key(issuer)
            &&& after.attestors.sep10_keys@[issuer] == key
            &&& other != issuer ==> after.attestors.sep10_keys@.contains_key(other)
                == before.attestors.sep10_keys@.contains_key(other)
                && after.attestors.sep10_keys@[other] == before.attestors.sep10_keys@[other]
            &&& after.attestors.registered == before.attestors.registered
        },
        token_key_set(before, after, issuer, key) ==> after.attestors.old_sep10_keys
            == before.attestors.old_sep10_keys,
        token_key_rotated(before, after, issuer, key) ==> {
            &&& before.attestors.sep10_keys@.contains_key(issuer)
                ==> after.attestors.old_sep10_keys@.contains_key(issuer)
                && after.attestors.old_sep10_keys@[issuer]@
                == before.attestors.sep10_keys@[issuer]@
            &&& after.events@ == before.events@.push(Event::Sep10KeyRotated(issuer))
        },
{
}

/// Tokens may be allowed 2048 to 16384 characters, and clocks may differ by up to
/// five minutes; what is set holds from then on.
pub proof fn token_settings_are_bounded(before: Ledger, after: Ledger, len: u32, skew: u64)
    ensures
        ({
            let free = duty_refusal(before, Duty::TokenSettings) is None;
            &&& token_length_refusal(before, len) is None <==> free && 2048 <= len
                <= 16384
            &&& token_skew_refusal(before, skew) is None <==> free && skew <= 300
        }),
        token_length_set(before, after, len) ==> after.config.jwt_max_len == Some(len)
            && after.config.jwt_skew == before.config.jwt_skew,
        token_skew_set(before, after, skew) ==> after.config.jwt_skew == Some(skew)
            && after.config.jwt_max_len == before.config.jwt_max_len,
{
}

/// A registered attestor is known by the key given, counted and announced; a
/// revoked one is not known, is on record with its key and with who revoked it, and
/// is announced.
pub proof fn the_register_follows_the_admin(
    before: Ledger,
    after: Ledger,
    attestor: Address,
    key: [u8; 32],
    other: Address,
)
    requires
        before.attestors.count < u64::MAX,
    ensures
        registered_by_admin(before, after, attestor, key) ==> {
            &&& after.attestors.registered@.contains_key(attestor)
            &&& after.attestors.registered@[attestor]
            &&& after.attestors.public_keys@[attestor] == key
            &&& after.attestors.count == before.attestors.count + 1
            &&& after.attestors.list@.contains(attestor)
            &&& after.attestors.revocations == before.attestors.revocations
            &&& after.events@.len() == before.events@.len() + 1
            &&& after.events@.last() is AttestorAdded
            &&& after.events@.last()->AttestorAdded_0.attestor == attestor
            &&& other != attestor ==> after.attestors.registered@.contains_key(other)
                == before.attestors.registered@.contains_key(other)
        },
        revoked_by_admin(before, after, attestor) ==> {
            &&& !after.attestors.registered@.contains_key(attestor)
            &&& !after.attestors.public_keys@.contains_key(attestor)
            &&& after.attestors.revocations@.contains_key(attestor)
            &&& after.attestors.revocations@[attestor].public_key
                == before.attestors.public_keys@[attestor]
            &&& after.attestors.revocations@[attestor].revoked_by == before.access.admin->0
            &&& after.events@.len() == before.events@.len() + 1
            &&& after.events@.last() is AttestorRemoved
            &&& after.events@.last()->AttestorRemoved_0.attestor == attestor
            &&& other != attestor ==> after.attestors.registered@.contains_key(other)
                == before.attestors.registered@.contains_key(other)
        },
        restored_by_admin(before, after, attestor) ==> {
            &&& after.attestors.registered@.contains_key(attestor)
            &&& after.attestors.public_keys@[attestor]
                == before.attestors.revocations@[attestor].public_key
            &&& after.attestors.revocations@[attestor].reactivated
            &&& after.attestors.revocations@[attestor].reactivated_at == before.clock.timestamp
            &&& after.attestors.revocations@[attestor].revoked_by
                == before.attestors.revocations@[attestor].revoked_by
            &&& after.events@.last() is AttestorRestored
            &&& after.events@.last()->AttestorRestored_0.attestor == attestor
        },
{
    if registered_by_admin(before, after, attestor, key) {
        let list = before.attestors.list@;
        assert(list.push(attestor)[list.len() as int] == attestor);
    }
}

/// Only who is registered is revoked, and only who was revoked and is not
/// registered is restored, while there is room.
pub proof fn revocations_are_checked(env: Ledger, attestor: Address)
    requires
        env.attestors.registered@.contains_key(attestor) ==> env.attestors.public_keys@.contains_key(
            attestor,
        ),
    ensures
        ({
            let duty = duty_refusal(env, Duty::Attestors);
            let known = env.attestors.registered@.contains_key(attestor);
            let dropped = env.attestors.revocations@.contains_key(attestor);
            let room = env.attestors.count < (match env.config.capacity {
                Some(c) => c.max_attestors as int,
                None => 1000,
            });
            &&& revoke_refusal(env, attestor) is None <==> duty is None && known
            &&& duty is Some ==> revoke_refusal(env, attestor) == duty && restore_refusal(
                env,
                attestor,
            ) == duty
            &&& restore_refusal(env, attestor) is None <==> duty is None && !known && dropped && room
            &&& duty is None && known ==> restore_refusal(env, attestor) == Some(
                ContractError::Code(ErrorCode::AttestorAlreadyRegistered),
            )
            &&& duty is None && !known && !dropped ==> restore_refusal(env, attestor) == Some(
                ContractError::Code(ErrorCode::AttestorNotRegistered),
            )
            &&& duty is None && !known && dropped && !room ==> restore_refusal(env, attestor)
                == Some(ContractError::Code(ErrorCode::AttestorCapacityExceeded))
        }),
{
}

/// Within a session the register changes as it does outside of one, the session
/// counts the operation, and the operator is on record; it takes a delegate, an
/// open session and, for a registration, an attestor that is not registered yet.
pub proof fn sessions_change_the_register(
    before: Ledger,
    after: Ledger,
    operator: Address,
    session: u64,
    attestor: Address,
    key: [u8; 32],
)
    requires
        operations_of(before, session) < u64::MAX,
    ensures
        ({
            let free = delegate_refusal(before, operator, Duty::Attestors) is None && open_refusal(
                before,
                session,
            ) is None;
            &&& session_register_refusal(before, operator, session, attestor) is None ==> free
                && !before.attestors.registered@.contains_key(attestor)
            &&& session_revoke_refusal(before, operator, session, attestor) is None ==> free
                && before.attestors.registered@.contains_key(attestor)
            &&& delegate_refusal(before, operator, Duty::Attestors) is Some
                ==> session_register_refusal(before, operator, session, attestor)
                == delegate_refusal(before, operator, Duty::Attestors)
            &&& free && before.attestors.registered@.contains_key(attestor)
                ==> session_register_refusal(before, operator, session, attestor) == Some(
                ContractError::Code(ErrorCode::AttestorAlreadyRegistered),
            )
        }),
        registered_in_session(before, after, operator, session, attestor, key) ==> {
            &&& after.attestors.registered@.contains_key(attestor)
            &&& after.attestors.public_keys@[attestor] == key
            &&& operations_of(after, session) == operations_of(before, session) + 1
            &&& after.events@.len() == before.events@.len() + 2
            &&& after.events@[before.events@.len() as int] is AttestorAdded
        },
        revoked_in_session(before, after, operator, session, attestor) ==> {
            &&& !after.attestors.registered@.contains_key(attestor)
            &&& after.attestors.revocations@[attestor].revoked_by == operator
            &&& operations_of(after, session) == operations_of(before, session) + 1
            &&& after.events@.len() == before.events@.len() + 2
            &&& after.events@[before.events@.len() as int] is AttestorRemoved
        },
{
}

/// An endpoint and an address for events read back as they were set, dated, and
/// leave the rest of the profile and other profiles as they were.
pub proof fn profiles_are_set_as_given(
    before: Ledger,
    after: Ledger,
    attestor: Address,
    url: String,
    other: Address,
)
    ensures
        endpoint_set(before, after, attestor, url) ==> {
            let (p, q) = (profile_of(before, attestor), profile_of(after, attestor));
            &&& q.endpoint == url@
            &&& q.webhook_url == p.webhook_url
            &&& q.services == p.services
            &&& q.updated_at == before.clock.timestamp
            &&& after.events@.last() is EndpointChanged
            &&& after.events@.last()->EndpointChanged_0.endpoint == url
            &&& after.events@.last()->EndpointChanged_0.attestor == attestor
        },
        webhook_set(before, after, attestor, url) ==> {
            let (p, q) = (profile_of(before, attestor), profile_of(after, attestor));
            &&& q.webhook_url == url@
            &&& q.endpoint == p.endpoint
            &&& q.services == p.services
            &&& q.updated_at == before.clock.timestamp
            &&& after.events@.last() is WebhookRegistered
        },
        (endpoint_set(before, after, attestor, url) || webhook_set(before, after, attestor, url))
            && other != attestor ==> profile_of(after, other) == profile_of(before, other),
{
}

/// The index of token ids loses exactly those that are no longer stored.
pub proof fn purges_keep_stored_token_ids(before: Ledger, after: Ledger)
    requires
        token_ids_purged(before, after),
    ensures
        after.attestors.jtis == before.attestors.jtis,
        after.attestors.jti_index@.len() <= before.attestors.jti_index@.len(),
        (forall|i: int|
            0 <= i < before.attestors.jti_index@.len() ==> before.attestors.jtis@.contains_key(
                (#[trigger] before.attestors.jti_index@[i])@,
            )) ==> after.attestors.jti_index@.len() == before.attestors.jti_index@.len(),
{
    let all = before.attestors.jti_index@.map_values(|b: Bytes| b@);
    let keep = |k: Seq<u8>| before.attestors.jtis@.contains_key(k);
    let kept = after.attestors.jti_index@.map_values(|b: Bytes| b@);
    assert(kept == all.filter(keep));
    assert(kept.len() == after.attestors.jti_index@.len());
    filters_shorten(all, keep);
    if forall|i: int|
        0 <= i < before.attestors.jti_index@.len() ==> before.attestors.jtis@.contains_key(
            (#[trigger] before.attestors.jti_index@[i])@,
        ) {
        assert forall|i: int| 0 <= i < all.len() implies keep(#[trigger] all[i]) by {
            assert(all[i] == before.attestors.jti_index@[i]@);
        }
    }
}

proof fn filters_shorten<A>(s: Seq<A>, keep: spec_fn(A) -> bool)
    ensures
        s.filter(keep).len() <= s.len(),
        (forall|i: int| 0 <= i < s.len() ==> keep(#[trigger] s[i])) ==> s.filter(keep).len()
            == s.len(),
    decreases s.len(),
{
    reveal(Seq::filter);
    if s.len() > 0 {
        let rest = s.drop_last();
        filters_shorten(rest, keep);
        if forall|i: int| 0 <= i < s.len() ==> keep(#[trigger] s[i]) {
            assert forall|i: int| 0 <= i < rest.len() implies keep(#[trigger] rest[i]) by {
                assert(s[i] == rest[i]);
            }
            assert(keep(s[s.len() - 1]));
        }
    }
}

/// A submission leaves a pending record, dated now, with the hash of the data, and
/// is announced; the records of others stay.
pub proof fn submissions_leave_a_pending_record(
    before: Ledger,
    after: Ledger,
    subject: Address,
    hash: Bytes,
    other: Address,
)
    requires
        kyc_submitted(before, after, subject, hash),
    ensures
        kyc_status_in(after, subject) == KycStatus::Pending,
        after.kyc.records@[subject].status == 1,
        after.kyc.records@[subject].submitted_at == before.clock.timestamp,
        after.kyc.data_hashes@[subject] == hash,
        after.events@.len() == before.events@.len() + 1,
        after.events@.last() is KycSubmitted,
        other != subject ==> kyc_status_in(after, other) == kyc_status_in(before, other),
        after.kyc.latest == before.kyc.latest,
{
}

/// An approval makes the subject approved for thirty days, a rejection rejected
/// with its reason, and a reopening reopened. Each is announced as what it was, and
/// no other subject is affected.
pub proof fn reviews_leave_their_outcome(
    before: Ledger,
    after: Ledger,
    operator: Address,
    subject: Address,
    reason: Bytes,
    other: Address,
)
    requires
        before.clock.timestamp + 30 * 86_400 <= u64::MAX,
    ensures
        kyc_approved(before, after, operator, subject) ==> {
            &&& kyc_status_in(after, subject) == KycStatus::Approved
            &&& after.kyc.records@[subject].expiry == Some(
                (before.clock.timestamp + 2_592_000) as u64,
            )
            &&& after.kyc.records@[subject].reviewed_at == Some(before.clock.timestamp)
            &&& after.events@.last() is KycApproved
            &&& after.events@.last()->KycApproved_0.subject == subject
        },
        kyc_rejected(before, after, operator, subject, reason) ==> {
            &&& kyc_status_in(after, subject) == KycStatus::Rejected
            &&& after.kyc.records@[subject].rejection_reason_hash == Some(reason)
            &&& after.kyc.records@[subject].expiry is None
            &&& after.kyc.records@[subject].reviewed_at == Some(before.clock.timestamp)
            &&& after.events@.last() is KycRejected
            &&& after.events@.last()->KycRejected_0.subject == subject
        },
        kyc_reopened(before, after, operator, subject) ==> {
            &&& kyc_status_in(before, subject) == KycStatus::Rejected ==> kyc_status_in(
                after,
                subject,
            ) == KycStatus::Reopened
            &&& after.kyc.records@[subject].reviewed_at == Some(before.clock.timestamp)
            &&& after.events@.last() is KycReopened
            &&& after.events@.last()->KycReopened_0.subject == subject
        },
        kyc_approved(before, after, operator, subject) || kyc_rejected(
            before,
            after,
            operator,
            subject,
            reason,
        ) || kyc_reopened(before, after, operator, subject) ==> {
            &&& after.kyc.records@[subject].submitted_at
                == before.kyc.records@[subject].submitted_at
            &&& after.admin_log@.last().actor == operator
            &&& after.admin_log@.len() == before.admin_log@.len() + 1
            &&& other != subject ==> kyc_status_in(after, other) == kyc_status_in(before, other)
        },
{
}

/// Pending records are approved or rejected by an operator who may do so, rejected
/// ones are reopened by one with the role; nothing else is.
pub proof fn operators_are_entitled(env: Ledger, operator: Address, subject: Address)
    ensures
        ({
            let stored = env.kyc.records@.contains_key(subject);
            let status = kyc_status_in(env, subject);
            let entitled = reviewer_refusal(env, operator) is None;
            let signed = env.auth.all || env.auth.signers@.contains(operator);
            let holds = env.access.admin == Some(operator) || (env.access.roles@.contains_key(
                (AdminRole::KycAdmin, operator),
            ) && env.access.roles@[(AdminRole::KycAdmin, operator)]);
            &&& approve_refusal(env, operator, subject) is None <==> entitled && stored && status
                == KycStatus::Pending
            &&& reject_refusal(env, operator, subject) is None <==> entitled && stored && status
                == KycStatus::Pending
            &&& reopen_refusal(env, operator, subject) is None <==> env.access.admin is Some
                && signed && holds && stored && status == KycStatus::Rejected
            &&& entitled && !stored ==> approve_refusal(env, operator, subject) == Some(
                ContractError::Code(ErrorCode::KycNotFound),
            )
            &&& entitled && stored && status != KycStatus::Pending ==> approve_refusal(
                env,
                operator,
                subject,
            ) == Some(ContractError::Code(ErrorCode::IllegalTransition)) && reject_refusal(
                env,
                operator,
                subject,
            ) == Some(ContractError::Code(ErrorCode::IllegalTransition))
        }),
{
}

/// A recorded check is the latest of its kind, with its outcome, score and time,
/// and ends the history of its kind; other kinds and subjects stay.
pub proof fn checks_leave_their_outcome(
    before: Ledger,
    after: Ledger,
    subject: Address,
    kind: String,
    passed: bool,
    score: Option<u32>,
    other: Address,
    other_kind: Seq<char>,
)
    requires
        history_len(before, subject, kind@) < u64::MAX,
        check_recorded(before, after, subject, kind, passed, score),
    ensures
        ({
            let c = after.kyc.latest@[(subject, kind@)];
            let n = history_len(before, subject, kind@);
            &&& after.kyc.latest@.contains_key((subject, kind@))
            &&& c.subject == subject
            &&& c.check_type == kind
            &&& passed <==> c.result == 1
            &&& !passed <==> c.result == 0
            &&& c.score == score
            &&& c.timestamp == before.clock.timestamp
            &&& after.kyc.history@[(subject, kind@, n)] == c
            &&& history_len(after, subject, kind@) == n + 1
            &&& after.events@.len() == before.events@.len() + 1
            &&& after.events@.last() == Event::ComplianceChecked(c)
        }),
        (other, other_kind) != (subject, kind@) ==> {
            &&& after.kyc.latest@.contains_key((other, other_kind))
                == before.kyc.latest@.contains_key((other, other_kind))
            &&& after.kyc.latest@[(other, other_kind)] == before.kyc.latest@[(other, other_kind)]
            &&& history_len(after, other, other_kind) == history_len(before, other, other_kind)
        },
        after.kyc.records == before.kyc.records,
{
}

/// A limit that was set for an address is the limit of that address; one for a
/// role is on record under the role. No other limit changes.
pub proof fn limits_are_set_as_given(
    before: Ledger,
    after: Ledger,
    caller: Address,
    a: Address,
    role: String,
    config: RateLimitConfig,
    other: Address,
)
    ensures
        address_limit_set(before, after, caller, a, config) ==> {
            &&& limit_of(after, a) == config
            &&& after.rates.config == before.rates.config
            &&& after.rates.roles == before.rates.roles
            &&& other != a ==> limit_of(after, other) == limit_of(before, other)
            &&& after.admin_log@.last().actor == caller
        },
        role_limit_set(before, after, caller, role, config) ==> {
            &&& after.rates.roles@.contains_key(role@)
            &&& after.rates.roles@[role@] == config
            &&& after.rates.config == before.rates.config
            &&& after.rates.addresses == before.rates.addresses
            &&& after.admin_log@.last().actor == caller
        },
{
}

/// A counted event adds one to the successes or to the failures, and to the calls;
/// a reset leaves none.
pub proof fn health_is_counted(before: Ledger, after: Ledger, anchor: Address, success: bool)
    ensures
        health_event_counted(before, after, anchor, success) ==> {
            let (m, n) = (health_of(before, anchor), health_of(after, anchor));
            &&& m.success_count + m.failure_count < u64::MAX ==> {
                &&& success ==> n.success_count == m.success_count + 1 && n.failure_count
                    == m.failure_count
                &&& !success ==> n.failure_count == m.failure_count + 1 && n.success_count
                    == m.success_count
                &&& n.total_calls == m.success_count + m.failure_count + 1
            }
            &&& n.last_event_at == before.clock.timestamp
            &&& after.events@.last() == Event::HealthRecorded(anchor, success, n.uptime_bps)
        },
        health_reset(before, after, anchor) ==> {
            let n = health_of(after, anchor);
            &&& n.success_count == 0
            &&& n.failure_count == 0
            &&& n.total_calls == 0
            &&& n.uptime_bps == 0
            &&& n.last_event_at == before.clock.timestamp
            &&& after.health.windows == before.health.windows
        },
        ({
            let r = health_event_refusal(before, anchor);
            let signed = before.auth.all || before.auth.signers@.contains(anchor);
            &&& r is None ==> admin_refusal(before) is None && signed
                && before.attestors.registered@.contains_key(anchor)
            &&& admin_refusal(before) is None && signed
                && before.attestors.registered@.contains_key(anchor)
                && before.attestors.registered@[anchor] ==> r is None
        }),
{
}

/// A recorded window is the newest of its anchor, and its successes and failures
/// are counted.
pub proof fn windows_are_recorded(
    before: Ledger,
    after: Ledger,
    anchor: Address,
    w: AnchorHealthWindow,
)
    requires
        health_window_recorded(before, after, anchor, w),
    ensures
        windows_of(after, anchor).len() > 0,
        windows_of(after, anchor).last() == w,
        after.health.metrics@.contains_key(anchor),
        ({
            let (m, n) = (health_of(before, anchor), health_of(after, anchor));
            m.success_count + w.success_count + m.failure_count + w.failure_count <= u64::MAX ==> {
                &&& n.success_count == m.success_count + w.success_count
                &&& n.failure_count == m.failure_count + w.failure_count
                &&& n.total_calls == n.success_count + n.failure_count
            }
        }),
{
}

/// A registered proof is stored as it was given and is not verified yet.
pub proof fn proofs_start_unverified(
    before: Ledger,
    after: Ledger,
    anchor: Address,
    endpoint: String,
    hash: [u8; 32],
)
    requires
        proof_registered(before, after, anchor, endpoint, hash),
    ensures
        after.attestors.proofs@.contains_key(anchor),
        after.attestors.proofs@[anchor].anchor == anchor,
        after.attestors.proofs@[anchor].endpoint == endpoint,
        after.attestors.proofs@[anchor].proof_hash == hash,
        after.attestors.proofs@[anchor].registered_at == before.clock.timestamp,
        !after.attestors.proofs@[anchor].verified,
        after.events@ == before.events@.push(
            Event::ProofRegistered(anchor, before.clock.timestamp),
        ),
{
}

} // verus!
