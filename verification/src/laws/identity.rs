//! Laws of identity and compliance checks.
use crate::address::Address;
use crate::contract::attestations::kyc_submit_refusal;
use crate::contract::kyc::{
    check_record, compliance_passed, kyc_status_in, kyc_step_refusal, reviewed, submit_kyc_refusal,
    submitted_record,
};
use crate::contract::ledger::{AdminAction, ContractError, Ledger};
use crate::contract::events::Event;
use crate::contract::quotes::accept_refusal;
use crate::contract::routing::{fallback_refusal, route_refusal};
use crate::contract::types::{KycRecord, KycStatus, RoutingOptions};
use crate::errors::ErrorCode;
use vstd::prelude::*;

verus! {

/// Where a submission would be accepted without an identity check, asking for one
/// leaves it accepted exactly where the subject has a record that was approved
/// and has not run out. Otherwise it is refused for what stands in the record:
/// there is none, its time is over, it is pending, rejected or reopened.
pub proof fn attestations_ask_for_an_approval(
    env: Ledger,
    issuer: Address,
    subject: Address,
    timestamp: u64,
    hash: Seq<u8>,
    signature: Seq<u8>,
)
    requires
        kyc_submit_refusal(env, issuer, subject, timestamp, hash, signature, false) is None,
    ensures
        ({
            let r = kyc_submit_refusal(env, issuer, subject, timestamp, hash, signature, true);
            let stored = env.kyc.records@.contains_key(subject);
            let record = env.kyc.records@[subject];
            let over = record.expiry is Some && env.clock.timestamp > record.expiry->0;
            &&& r is None <==> stored && record.status == 2 && !over
            &&& !stored ==> r == Some(ContractError::Code(ErrorCode::KycNotFound))
            &&& stored && over ==> r == Some(ContractError::Code(ErrorCode::KycExpired))
            &&& stored && !over && record.status == 1 ==> r == Some(
                ContractError::Code(ErrorCode::KycPending),
            )
            &&& stored && !over && record.status == 3 ==> r == Some(
                ContractError::Code(ErrorCode::KycRejected),
            )
            &&& stored && !over && record.status == 4 ==> r == Some(
                ContractError::Code(ErrorCode::KycExpired),
            )
            &&& stored && !over && record.status == 5 ==> r == Some(
                ContractError::Code(ErrorCode::ComplianceNotMet),
            )
        }),
{
}

/// Asking for an identity check never lets a submission through that would be
/// refused without it.
pub proof fn asking_for_an_approval_lets_nothing_through(
    env: Ledger,
    issuer: Address,
    subject: Address,
    timestamp: u64,
    hash: Seq<u8>,
    signature: Seq<u8>,
)
    requires
        kyc_submit_refusal(env, issuer, subject, timestamp, hash, signature, false) is Some,
    ensures
        kyc_submit_refusal(env, issuer, subject, timestamp, hash, signature, true)
            == kyc_submit_refusal(env, issuer, subject, timestamp, hash, signature, false),
{
}

/// Where a transaction would be routed without an identity check, asking for one
/// leaves it routed exactly where the subject has a record that was approved and
/// has not run out; otherwise it is refused for what stands in the record. The
/// same holds with a preferred anchor.
pub proof fn routes_ask_for_an_approval(
    env: Ledger,
    options: RoutingOptions,
    asking: RoutingOptions,
    preferred: Address,
)
    requires
        !options.require_kyc,
        asking == (RoutingOptions { require_kyc: true, ..options }),
    ensures
        ({
            let stored = env.kyc.records@.contains_key(options.subject);
            let record = env.kyc.records@[options.subject];
            let over = record.expiry is Some && env.clock.timestamp > record.expiry->0;
            let approved = stored && record.status == 2 && !over;
            let reason = if !stored {
                ErrorCode::KycNotFound
            } else if over || record.status == 4 {
                ErrorCode::KycExpired
            } else if record.status == 1 {
                ErrorCode::KycPending
            } else if record.status == 3 {
                ErrorCode::KycRejected
            } else if record.status == 5 {
                ErrorCode::ComplianceNotMet
            } else {
                ErrorCode::KycNotFound
            };
            &&& route_refusal(env, options) is None ==> (route_refusal(env, asking) is None
                <==> approved)
            &&& route_refusal(env, options) is None && !approved ==> route_refusal(env, asking)
                == Some(ContractError::Code(reason))
            &&& fallback_refusal(env, options, preferred) is None ==> (fallback_refusal(
                env,
                asking,
                preferred,
            ) is None <==> approved)
            &&& fallback_refusal(env, options, preferred) is None && !approved ==> fallback_refusal(
                env,
                asking,
                preferred,
            ) == Some(ContractError::Code(reason))
        }),
{
}

/// Where a transaction would be routed without a compliance check, asking for one
/// leaves it routed exactly where the latest check of the subject has passed, and
/// otherwise refuses it for that. The same holds with a preferred anchor.
pub proof fn routes_ask_for_compliance(
    env: Ledger,
    options: RoutingOptions,
    asking: RoutingOptions,
    preferred: Address,
)
    requires
        !options.require_compliance,
        asking == (RoutingOptions { require_compliance: true, ..options }),
    ensures
        ({
            let passed = env.kyc.latest@.contains_key((options.subject, "kyc"@))
                && env.kyc.latest@[(options.subject, "kyc"@)].result == 1;
            let refused = Some(ContractError::Code(ErrorCode::ComplianceNotMet));
            &&& route_refusal(env, options) is None && passed ==> route_refusal(env, asking) is None
            &&& route_refusal(env, options) is None && !passed ==> route_refusal(env, asking)
                == refused
            &&& fallback_refusal(env, options, preferred) is None && passed ==> fallback_refusal(
                env,
                asking,
                preferred,
            ) is None
            &&& fallback_refusal(env, options, preferred) is None && !passed ==> fallback_refusal(
                env,
                asking,
                preferred,
            ) == refused
        }),
{
}

/// Where an attestor may submit for a subject without a record, it may submit
/// again for one with a record exactly where that was reopened, or was rejected
/// or has run out and a day has passed since it was submitted. Everything else is
/// refused.
pub proof fn submissions_may_be_renewed(
    env: Ledger,
    fresh: Address,
    subject: Address,
    attestor: Address,
)
    requires
        !env.kyc.records@.contains_key(fresh),
        submit_kyc_refusal(env, fresh, attestor) is None,
    ensures
        ({
            let r = submit_kyc_refusal(env, subject, attestor);
            let stored = env.kyc.records@.contains_key(subject);
            let record = env.kyc.records@[subject];
            let over = record.expiry is Some && env.clock.timestamp > record.expiry->0;
            let day = env.clock.timestamp - record.submitted_at >= 86_400;
            &&& !stored ==> r is None
            &&& stored && over && day ==> r is None
            &&& stored && record.status == 3 && day ==> r is None
            &&& stored && record.status == 4 && day ==> r is None
            &&& stored && !over && record.status == 5 ==> r is None
            &&& stored && !over && (record.status == 1 || record.status == 2) ==> r == Some(
                ContractError::Code(ErrorCode::ComplianceNotMet),
            )
            &&& stored && (over || record.status != 5) && !day ==> r == Some(
                ContractError::Code(ErrorCode::ComplianceNotMet),
            )
        }),
{
}

/// Only an attestor submits for a subject, and only one who has signed the call.
pub proof fn attestors_submit_for_subjects(env: Ledger, subject: Address, attestor: Address)
    requires
        submit_kyc_refusal(env, subject, attestor) is None,
    ensures
        env.auth.all || env.auth.signers@.contains(attestor),
        env.attestors.registered@.contains_key(attestor),
{
}

/// What was submitted is pending from then on, until it is reviewed.
pub proof fn submissions_are_pending(before: Ledger, after: Ledger, subject: Address, other: Address)
    requires
        after.kyc.records@ == before.kyc.records@.insert(
            subject,
            submitted_record(subject, before.clock.timestamp),
        ),
        after.clock == before.clock,
    ensures
        kyc_status_in(after, subject) == KycStatus::Pending,
        after.kyc.records@[subject].submitted_at == before.clock.timestamp,
        after.kyc.records@[subject].expiry is None,
        after.kyc.records@[subject].reviewed_at is None,
        other != subject ==> kyc_status_in(after, other) == kyc_status_in(before, other),
{
}

/// A review approves or rejects a record exactly where it is pending and its time
/// is not over, and reopens one exactly where it was rejected. Where there is no
/// record it says so.
pub proof fn reviews_follow_the_record(env: Ledger, subject: Address)
    ensures
        ({
            let stored = env.kyc.records@.contains_key(subject);
            let record = env.kyc.records@[subject];
            let over = record.expiry is Some && env.clock.timestamp > record.expiry->0;
            let approve = kyc_step_refusal(env, subject, KycStatus::Approved);
            let reject = kyc_step_refusal(env, subject, KycStatus::Rejected);
            let reopen = kyc_step_refusal(env, subject, KycStatus::Reopened);
            &&& !stored ==> approve == Some(ContractError::Code(ErrorCode::KycNotFound))
            &&& !stored ==> reject == Some(ContractError::Code(ErrorCode::KycNotFound))
            &&& !stored ==> reopen == Some(ContractError::Code(ErrorCode::KycNotFound))
            &&& approve is None <==> stored && record.status == 1 && !over
            &&& reject is None <==> stored && record.status == 1 && !over
            &&& reopen is None <==> stored && record.status == 3 && !over
            &&& stored && approve is Some ==> approve == Some(
                ContractError::Code(ErrorCode::IllegalTransition),
            )
            &&& stored && reject is Some ==> reject == Some(
                ContractError::Code(ErrorCode::IllegalTransition),
            )
            &&& stored && reopen is Some ==> reopen == Some(
                ContractError::Code(ErrorCode::IllegalTransition),
            )
        }),
{
}

/// The status of a subject is what its record says: none where there is no
/// record, expired where its time is over, and otherwise the status on record.
pub proof fn statuses_read_the_record(env: Ledger, subject: Address)
    ensures
        ({
            let s = kyc_status_in(env, subject);
            let stored = env.kyc.records@.contains_key(subject);
            let record = env.kyc.records@[subject];
            let over = record.expiry is Some && env.clock.timestamp > record.expiry->0;
            &&& !stored ==> s == KycStatus::NotSubmitted
            &&& stored && over ==> s == KycStatus::Expired
            &&& stored && !over && record.status == 1 ==> s == KycStatus::Pending
            &&& stored && !over && record.status == 2 ==> s == KycStatus::Approved
            &&& stored && !over && record.status == 3 ==> s == KycStatus::Rejected
            &&& stored && !over && record.status == 4 ==> s == KycStatus::Expired
            &&& stored && !over && record.status == 5 ==> s == KycStatus::Reopened
        }),
{
}

/// A review leaves the record that it made, and that of no other subject is
/// touched; it is on the administrative log and announced.
pub proof fn reviews_touch_one_record(
    before: Ledger,
    after: Ledger,
    subject: Address,
    record: KycRecord,
    entry: AdminAction,
    event: Event,
    other: Address,
)
    requires
        reviewed(before, after, subject, record, entry, event),
    ensures
        after.kyc.records@[subject] == record,
        other != subject ==> kyc_status_in(after, other) == kyc_status_in(before, other),
        after.kyc.latest == before.kyc.latest,
        after.attestors == before.attestors,
        after.quotes == before.quotes,
        after.admin_log@.last() == entry,
        after.admin_log@.len() == before.admin_log@.len() + 1,
        after.events@.last() == event,
        after.events@.len() == before.events@.len() + 1,
{
}

/// After a check of the standard kind was recorded for a receiver, a quote that
/// the receiver could accept without one is accepted with one exactly where that
/// check has passed.
pub proof fn acceptances_follow_the_latest_check(
    before: Ledger,
    after: Ledger,
    receiver: Address,
    check_type: String,
    passed: bool,
    score: Option<u32>,
    anchor: Address,
    quote_id: u64,
)
    requires
        check_type@ == "kyc"@,
        after.kyc.latest@ == before.kyc.latest@.insert(
            (receiver, check_type@),
            check_record(receiver, check_type, passed, score, before.clock.timestamp),
        ),
        accept_refusal(after, receiver, anchor, quote_id, false) is None,
    ensures
        passed ==> accept_refusal(after, receiver, anchor, quote_id, true) is None,
        !passed ==> accept_refusal(after, receiver, anchor, quote_id, true) == Some(
            ContractError::Code(ErrorCode::ComplianceNotMet),
        ),
{
}

/// A receiver of whom no check of the standard kind is on record cannot accept a
/// quote for which one is asked.
pub proof fn acceptances_need_a_check(env: Ledger, receiver: Address, anchor: Address, quote_id: u64)
    requires
        !env.kyc.latest@.contains_key((receiver, "kyc"@)),
    ensures
        accept_refusal(env, receiver, anchor, quote_id, true) is Some,
        accept_refusal(env, receiver, anchor, quote_id, false) is None ==> accept_refusal(
            env,
            receiver,
            anchor,
            quote_id,
            true,
        ) == Some(ContractError::Code(ErrorCode::ComplianceNotMet)),
{
}

/// A check of another kind, or of another subject, changes nothing of whether a
/// subject has passed; and a check of the standard kind settles it.
pub proof fn checks_settle_compliance(
    before: Ledger,
    after: Ledger,
    subject: Address,
    check_type: String,
    passed: bool,
    score: Option<u32>,
    other: Address,
)
    requires
        after.kyc.latest@ == before.kyc.latest@.insert(
            (subject, check_type@),
            check_record(subject, check_type, passed, score, before.clock.timestamp),
        ),
    ensures
        check_type@ == "kyc"@ ==> compliance_passed(after, subject) == passed,
        check_type@ != "kyc"@ ==> compliance_passed(after, subject) == compliance_passed(
            before,
            subject,
        ),
        other != subject ==> compliance_passed(after, other) == compliance_passed(before, other),
{
}

/// The record of a check holds whom it is about, its kind, its outcome as one or
/// zero, its score and its time.
pub proof fn checks_are_recorded_as_given(
    subject: Address,
    check_type: String,
    passed: bool,
    score: Option<u32>,
    now: u64,
)
    ensures
        ({
            let c = check_record(subject, check_type, passed, score, now);
            &&& c.subject == subject
            &&& c.check_type == check_type
            &&& c.result == 1 <==> passed
            &&& c.result == 0 <==> !passed
            &&& c.score == score
            &&& c.timestamp == now
        }),
{
}

} // verus!
