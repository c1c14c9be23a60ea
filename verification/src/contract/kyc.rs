//! Identity checks and compliance records.
use crate::address::Address;
use crate::contract::events::{Event, KycEvent, KycStatusChangedEvent};
use crate::contract::ledger::{
    admin_refusal, attestor_refusal, auth_refusal, either, follows, holds_capability, holds_role,
    refuse_when, role_refusal, AdminAction, AdminOutcome, AdminTarget, AnchorKitContract,
    ContractError, KycState, Ledger,
};
use crate::contract::types::{
    AdminCapability, AdminRole, Bytes, ComplianceCheck, KycRecord, KycStatus, KYC_EXPIRY_SECONDS,
    SCHEMA_V1,
};
use crate::errors::ErrorCode;
use crate::text::same_text;
use vstd::prelude::*;

verus! {

/// Seconds that must pass between two submissions of one subject.
pub const KYC_COOLDOWN_SECONDS: u64 = 86_400;

/// The status that a record has at a time: a record past its expiry has
/// expired, whatever is stored.
pub open spec fn kyc_status_at(record: KycRecord, now: u64) -> KycStatus {
    if record.expiry is Some && now > record.expiry->0 {
        KycStatus::Expired
    } else if record.status == 1 {
        KycStatus::Pending
    } else if record.status == 2 {
        KycStatus::Approved
    } else if record.status == 3 {
        KycStatus::Rejected
    } else if record.status == 4 {
        KycStatus::Expired
    } else if record.status == 5 {
        KycStatus::Reopened
    } else {
        KycStatus::NotSubmitted
    }
}

/// The status of a subject.
pub open spec fn kyc_status_in(env: Ledger, subject: Address) -> KycStatus {
    if env.kyc.records@.contains_key(subject) {
        kyc_status_at(env.kyc.records@[subject], env.clock.timestamp)
    } else {
        KycStatus::NotSubmitted
    }
}

/// The steps between two statuses.
pub open spec fn kyc_step(current: KycStatus, next: KycStatus) -> bool {
    match (current, next) {
        (KycStatus::NotSubmitted, KycStatus::Pending) => true,
        (KycStatus::Expired, KycStatus::Pending) => true,
        (KycStatus::Rejected, KycStatus::Pending) => true,
        (KycStatus::Reopened, KycStatus::Pending) => true,
        (KycStatus::Pending, KycStatus::Approved) => true,
        (KycStatus::Pending, KycStatus::Rejected) => true,
        (KycStatus::Rejected, KycStatus::Reopened) => true,
        _ => false,
    }
}

/// Whether a record submitted at `submitted_at` may take a step at `now`. A
/// new submission waits for a day after the last, unless the record was
/// reopened.
pub open spec fn kyc_may_step(current: KycStatus, next: KycStatus, submitted_at: u64, now: u64) -> bool {
    &&& kyc_step(current, next)
    &&& next == KycStatus::Pending && current != KycStatus::Reopened ==> now - submitted_at
        >= KYC_COOLDOWN_SECONDS
}

fn current_kyc_status(now: u64, record: &KycRecord) -> (s: KycStatus)
    ensures
        s == kyc_status_at(*record, now),
{
    if let Some(expiry) = record.expiry {
        if now > expiry {
            return KycStatus::Expired;
        }
    }
    match record.status {
        1 => KycStatus::Pending,
        2 => KycStatus::Approved,
        3 => KycStatus::Rejected,
        4 => KycStatus::Expired,
        5 => KycStatus::Reopened,
        _ => KycStatus::NotSubmitted,
    }
}

fn validate_kyc_transition(current: KycStatus, next: KycStatus, record: &KycRecord, now: u64) -> (r:
    bool)
    ensures
        r == kyc_may_step(current, next, record.submitted_at, now),
{
    if next == KycStatus::Pending && current != KycStatus::Reopened && now.saturating_sub(
        record.submitted_at,
    ) < KYC_COOLDOWN_SECONDS {
        return false;
    }
    match (current, next) {
        (KycStatus::NotSubmitted, KycStatus::Pending) => true,
        (KycStatus::Expired, KycStatus::Pending) => true,
        (KycStatus::Rejected, KycStatus::Pending) => true,
        (KycStatus::Reopened, KycStatus::Pending) => true,
        (KycStatus::Pending, KycStatus::Approved) => true,
        (KycStatus::Pending, KycStatus::Rejected) => true,
        (KycStatus::Rejected, KycStatus::Reopened) => true,
        _ => false,
    }
}

/// Why a submission is refused.
pub open spec fn submit_kyc_refusal(env: Ledger, subject: Address, attestor: Address) -> Option<
    ContractError,
> {
    either(
        auth_refusal(env, attestor),
        either(
            attestor_refusal(env, attestor),
            refuse_when(
                env.kyc.records@.contains_key(subject) && !kyc_may_step(
                    kyc_status_in(env, subject),
                    KycStatus::Pending,
                    env.kyc.records@[subject].submitted_at,
                    env.clock.timestamp,
                ),
                ErrorCode::ComplianceNotMet,
            ),
        ),
    )
}

/// The record of a fresh submission.
pub open spec fn submitted_record(subject: Address, now: u64) -> KycRecord {
    KycRecord {
        subject,
        status: 1,
        submitted_at: now,
        reviewed_at: None,
        expiry: None,
        rejection_reason_hash: None,
        schema_version: SCHEMA_V1,
    }
}

/// The refusal of an operator who may not review submissions.
pub open spec fn reviewer_refusal(env: Ledger, operator: Address) -> Option<ContractError> {
    if !holds_role(env, operator, AdminRole::KycAdmin) && !holds_capability(
        env,
        operator,
        AdminCapability::ManageKyc,
    ) {
        Some(ContractError::Code(ErrorCode::Unauthorized))
    } else {
        auth_refusal(env, operator)
    }
}

/// The refusal of a step of a stored record.
pub open spec fn kyc_step_refusal(env: Ledger, subject: Address, next: KycStatus) -> Option<
    ContractError,
> {
    if !env.kyc.records@.contains_key(subject) {
        Some(ContractError::Code(ErrorCode::KycNotFound))
    } else if !kyc_may_step(
        kyc_status_in(env, subject),
        next,
        env.kyc.records@[subject].submitted_at,
        env.clock.timestamp,
    ) {
        Some(ContractError::Code(ErrorCode::IllegalTransition))
    } else {
        None
    }
}

/// What a review leaves behind: the new record, an entry in the administrative
/// log, and an announcement.
pub open spec fn reviewed(
    before: Ledger,
    after: Ledger,
    subject: Address,
    record: KycRecord,
    entry: AdminAction,
    event: Event,
) -> bool {
    &&& after == (Ledger {
        kyc: KycState { records: after.kyc.records, ..before.kyc },
        admin_log: after.admin_log,
        events: after.events,
        ..before
    })
    &&& after.kyc.records@ == before.kyc.records@.insert(subject, record)
    &&& after.admin_log@ == before.admin_log@.push(entry)
    &&& after.events@ == before.events@.push(event)
}

/// The entry of a review in the administrative log.
pub open spec fn review_entry(
    operator: Address,
    action: &'static str,
    subject: Address,
    before: &'static str,
    after: &'static str,
) -> AdminAction {
    AdminAction {
        actor: operator,
        action,
        target: AdminTarget::Account(subject),
        before,
        after: AdminOutcome::Label(after),
    }
}

/// Whether the latest check of the standard kind has passed.
pub open spec fn compliance_passed(env: Ledger, subject: Address) -> bool {
    env.kyc.latest@.contains_key((subject, "kyc"@)) && env.kyc.latest@[(subject, "kyc"@)].result
        == 1
}

/// The record of a compliance check.
pub open spec fn check_record(
    subject: Address,
    check_type: String,
    passed: bool,
    score: Option<u32>,
    now: u64,
) -> ComplianceCheck {
    ComplianceCheck {
        subject,
        check_type,
        result: if passed {
            1
        } else {
            0
        },
        score,
        timestamp: now,
    }
}

/// How many checks of one kind were recorded for a subject.
pub open spec fn history_len(env: Ledger, subject: Address, check_type: Seq<char>) -> u64 {
    if env.kyc.history_counts@.contains_key((subject, check_type)) {
        env.kyc.history_counts@[(subject, check_type)]
    } else {
        0
    }
}

/// The kinds of checks recorded for a subject, in the order of their first
/// occurrence.
pub open spec fn kinds_of(env: Ledger, subject: Address) -> Seq<String> {
    if env.kyc.check_types@.contains_key(subject) {
        env.kyc.check_types@[subject]@
    } else {
        Seq::empty()
    }
}

/// Whether a kind is among the kinds.
pub open spec fn lists_kind(kinds: Seq<String>, kind: Seq<char>) -> bool {
    exists|i: int| 0 <= i < kinds.len() && (#[trigger] kinds[i])@ == kind
}

/// The stored checks with positions from `from` up to `to`, oldest first.
pub open spec fn history_range(
    history: Map<(Address, Seq<char>, u64), ComplianceCheck>,
    subject: Address,
    check_type: Seq<char>,
    from: int,
    to: int,
) -> Seq<ComplianceCheck>
    decreases to - from,
{
    if from >= to {
        Seq::empty()
    } else {
        let rest = history_range(history, subject, check_type, from, to - 1);
        if history.contains_key((subject, check_type, (to - 1) as u64)) {
            rest.push(history[(subject, check_type, (to - 1) as u64)])
        } else {
            rest
        }
    }
}

fn lists(kinds: &Vec<String>, kind: &String) -> (r: bool)
    ensures
        r == lists_kind(kinds@, kind@),
{
    let mut i: usize = 0;
    while i < kinds.len()
        invariant
            0 <= i <= kinds@.len(),
            forall|j: int| 0 <= j < i ==> (#[trigger] kinds@[j])@ != kind@,
        decreases kinds@.len() - i,
    {
        if same_text(kinds[i].as_str(), kind.as_str()) {
            assert(kinds@[i as int]@ == kind@);
            return true;
        }
        i = i + 1;
    }
    false
}

/// The ledger after a submission was taken.
pub open spec fn kyc_submitted(
    before: Ledger,
    after: Ledger,
    subject: Address,
    data_hash: Bytes,
) -> bool {
    let now = before.clock.timestamp;
    let event = after.events@.last();
    &&& after == (Ledger {
        kyc: KycState {
            records: after.kyc.records,
            data_hashes: after.kyc.data_hashes,
            ..before.kyc
        },
        events: after.events,
        ..before
    })
    &&& after.kyc.records@ == before.kyc.records@.insert(
        subject,
        submitted_record(subject, now),
    )
    &&& after.kyc.data_hashes@ == before.kyc.data_hashes@.insert(
        subject,
        data_hash,
    )
    &&& after.events@ == before.events@.push(event)
    &&& event is KycSubmitted
    &&& event->KycSubmitted_0.subject == subject
    &&& event->KycSubmitted_0.submitted_at == now
    &&& event->KycSubmitted_0.data_hash@ == data_hash@
}

/// Why a record is not approved.
pub open spec fn approve_refusal(
    env: Ledger,
    operator: Address,
    subject: Address,
) -> Option<ContractError> {
    either(
        reviewer_refusal(env, operator),
        kyc_step_refusal(env, subject, KycStatus::Approved),
    )
}

/// The ledger after a record was approved.
pub open spec fn kyc_approved(
    before: Ledger,
    after: Ledger,
    operator: Address,
    subject: Address,
) -> bool {
    reviewed(
        before,
        after,
        subject,
        (KycRecord {
            status: 2,
            reviewed_at: Some(before.clock.timestamp),
            expiry: Some((before.clock.timestamp + KYC_EXPIRY_SECONDS) as u64),
            ..before.kyc.records@[subject]
        }),
        review_entry(operator, "approve_kyc", subject, "Pending", "Approved"),
        Event::KycApproved(
            KycStatusChangedEvent {
                subject,
                new_status: 2,
                timestamp: before.clock.timestamp,
            },
        ),
    )
}

/// Why a record is not rejected.
pub open spec fn reject_refusal(
    env: Ledger,
    operator: Address,
    subject: Address,
) -> Option<ContractError> {
    either(
        reviewer_refusal(env, operator),
        kyc_step_refusal(env, subject, KycStatus::Rejected),
    )
}

/// The ledger after a record was rejected.
pub open spec fn kyc_rejected(
    before: Ledger,
    after: Ledger,
    operator: Address,
    subject: Address,
    reason_hash: Bytes,
) -> bool {
    reviewed(
        before,
        after,
        subject,
        (KycRecord {
            status: 3,
            reviewed_at: Some(before.clock.timestamp),
            expiry: None,
            rejection_reason_hash: Some(reason_hash),
            ..before.kyc.records@[subject]
        }),
        review_entry(operator, "reject_kyc", subject, "Pending", "Rejected"),
        Event::KycRejected(
            KycStatusChangedEvent {
                subject,
                new_status: 3,
                timestamp: before.clock.timestamp,
            },
        ),
    )
}

/// Why a record is not reopened.
pub open spec fn reopen_refusal(
    env: Ledger,
    operator: Address,
    subject: Address,
) -> Option<ContractError> {
    either(
        role_refusal(env, operator, AdminRole::KycAdmin),
        kyc_step_refusal(env, subject, KycStatus::Reopened),
    )
}

/// The ledger after a record was reopened.
pub open spec fn kyc_reopened(
    before: Ledger,
    after: Ledger,
    operator: Address,
    subject: Address,
) -> bool {
    reviewed(
        before,
        after,
        subject,
        (KycRecord {
            status: 5,
            reviewed_at: Some(before.clock.timestamp),
            ..before.kyc.records@[subject]
        }),
        review_entry(operator, "reopen_kyc", subject, "Rejected", "Reopened"),
        Event::KycReopened(
            KycStatusChangedEvent {
                subject,
                new_status: 5,
                timestamp: before.clock.timestamp,
            },
        ),
    )
}

/// The ledger after the outcome of a check was recorded.
pub open spec fn check_recorded(
    before: Ledger,
    after: Ledger,
    subject: Address,
    check_type: String,
    passed: bool,
    score: Option<u32>,
) -> bool {
    let record = check_record(
        subject,
        check_type,
        passed,
        score,
        before.clock.timestamp,
    );
    let n = history_len(before, subject, check_type@);
    &&& after == (Ledger {
        kyc: KycState {
            latest: after.kyc.latest,
            history: after.kyc.history,
            history_counts: after.kyc.history_counts,
            check_types: after.kyc.check_types,
            ..before.kyc
        },
        events: after.events,
        ..before
    })
    &&& after.kyc.latest@ == before.kyc.latest@.insert(
        (subject, check_type@),
        record,
    )
    &&& after.kyc.history@ == before.kyc.history@.insert(
        (subject, check_type@, n),
        record,
    )
    &&& after.kyc.history_counts@ == before.kyc.history_counts@.insert(
        (subject, check_type@),
        (n + 1) as u64,
    )
    &&& kinds_of(after, subject) == (if lists_kind(
        kinds_of(before, subject),
        check_type@,
    ) {
        kinds_of(before, subject)
    } else {
        kinds_of(before, subject).push(check_type)
    })
    &&& forall|other: Address|
        other != subject ==> #[trigger] kinds_of(after, other) == kinds_of(
            before,
            other,
        )
    &&& after.events@ == before.events@.push(Event::ComplianceChecked(record))
}

/// The last checks of a kind, fifty at most.
pub open spec fn recent_checks(
    env: Ledger,
    subject: Address,
    check_type: String,
    limit: u64,
) -> Seq<ComplianceCheck> {
    let total = history_len(env, subject, check_type@);
    let wanted = if limit < 50 {
        limit as int
    } else {
        50
    };
    let start = if total > wanted {
        total - wanted
    } else {
        0
    };
    history_range(env.kyc.history@, subject, check_type@, start, total as int)
}

impl AnchorKitContract {
    /// Takes a submission for review. An attestor submits the hash of the
    /// subject's data; the record is pending afterwards.
    pub fn submit_kyc(env: &mut Ledger, subject: Address, data_hash: Bytes, attestor: Address) -> (r:
        Result<(), ContractError>)
        ensures
            follows(r, submit_kyc_refusal(*old(env), subject, attestor)),
            r is Err ==> *final(env) == *old(env),
            r is Ok ==> kyc_submitted(*old(env), *final(env), subject, data_hash),
    {
        match env.require_auth(&attestor) {
            Err(e) => {
                return Err(e);
            },
            Ok(_) => {},
        }
        match env.check_attestor(&attestor) {
            Err(e) => {
                return Err(e);
            },
            Ok(_) => {},
        }
        let now: u64 = env.clock.timestamp;
        if let Some(existing) = env.kyc.records.get(&subject) {
            let current_status = current_kyc_status(now, existing);
            if !validate_kyc_transition(current_status, KycStatus::Pending, existing, now) {
                return Err(ContractError::Code(ErrorCode::ComplianceNotMet));
            }
        }
        let record = KycRecord {
            subject,
            status: 1,
            submitted_at: now,
            reviewed_at: None,
            expiry: None,
            rejection_reason_hash: None,
            schema_version: SCHEMA_V1,
        };
        env.kyc.records.set(subject, record);
        let copy = data_hash.copy();
        env.kyc.data_hashes.set(subject, data_hash);
        env.publish(
            Event::KycSubmitted(KycEvent { subject, submitted_at: now, data_hash: copy }),
        );
        Ok(())
    }

    /// The hash of the data that was submitted for a subject.
    pub fn get_kyc_data_hash(env: &Ledger, subject: Address) -> (r: Option<&Bytes>)
        ensures
            match r {
                Some(h) => env.kyc.data_hashes@.contains_key(subject) && *h
                    == env.kyc.data_hashes@[subject],
                None => !env.kyc.data_hashes@.contains_key(subject),
            },
    {
        env.kyc.data_hashes.get(&subject)
    }

    fn require_reviewer(env: &Ledger, operator: &Address) -> (r: Result<(), ContractError>)
        ensures
            follows(r, reviewer_refusal(*env, *operator)),
    {
        if !env.has_role(operator, AdminRole::KycAdmin) && !env.has_capability(
            operator,
            AdminCapability::ManageKyc,
        ) {
            return Err(ContractError::Code(ErrorCode::Unauthorized));
        }
        env.require_auth(operator)
    }

    fn require_kyc_step(env: &Ledger, subject: &Address, next: KycStatus) -> (r: Result<
        (),
        ContractError,
    >)
        ensures
            follows(r, kyc_step_refusal(*env, *subject, next)),
    {
        let now: u64 = env.clock.timestamp;
        match env.kyc.records.get(subject) {
            None => Err(ContractError::Code(ErrorCode::KycNotFound)),
            Some(record) => {
                let current_status = current_kyc_status(now, record);
                if !validate_kyc_transition(current_status, next, record, now) {
                    return Err(ContractError::Code(ErrorCode::IllegalTransition));
                }
                Ok(())
            },
        }
    }

    /// Approves a pending record for thirty days.
    pub fn approve_kyc(env: &mut Ledger, operator: Address, subject: Address) -> (r: Result<
        (),
        ContractError,
    >)
        requires
            old(env).clock.timestamp + KYC_EXPIRY_SECONDS <= u64::MAX,
        ensures
            follows(r, approve_refusal(*old(env), operator, subject)),
            r is Err ==> *final(env) == *old(env),
            r is Ok ==> kyc_approved(*old(env), *final(env), operator, subject),
    {
        match Self::require_reviewer(env, &operator) {
            Err(e) => {
                return Err(e);
            },
            Ok(_) => {},
        }
        match Self::require_kyc_step(env, &subject, KycStatus::Approved) {
            Err(e) => {
                return Err(e);
            },
            Ok(_) => {},
        }
        let now: u64 = env.clock.timestamp;
        if let Some(record) = env.kyc.records.get_mut(&subject) {
            record.status = 2;
            record.reviewed_at = Some(now);
            record.expiry = Some(now + KYC_EXPIRY_SECONDS);
        }
        env.log_action(
            operator,
            "approve_kyc",
            AdminTarget::Account(subject),
            "Pending",
            "Approved",
        );
        env.publish(
            Event::KycApproved(KycStatusChangedEvent { subject, new_status: 2, timestamp: now }),
        );
        Ok(())
    }

    /// Rejects a pending record for a reason given by its hash.
    pub fn reject_kyc(env: &mut Ledger, operator: Address, subject: Address, reason_hash: Bytes) -> (r:
        Result<(), ContractError>)
        ensures
            follows(r, reject_refusal(*old(env), operator, subject)),
            r is Err ==> *final(env) == *old(env),
            r is Ok ==> kyc_rejected(*old(env), *final(env), operator, subject, reason_hash),
    {
        match Self::require_reviewer(env, &operator) {
            Err(e) => {
                return Err(e);
            },
            Ok(_) => {},
        }
        match Self::require_kyc_step(env, &subject, KycStatus::Rejected) {
            Err(e) => {
                return Err(e);
            },
            Ok(_) => {},
        }
        let now: u64 = env.clock.timestamp;
        if let Some(record) = env.kyc.records.get_mut(&subject) {
            record.status = 3;
            record.reviewed_at = Some(now);
            record.expiry = None;
            record.rejection_reason_hash = Some(reason_hash);
        }
        env.log_action(
            operator,
            "reject_kyc",
            AdminTarget::Account(subject),
            "Pending",
            "Rejected",
        );
        env.publish(
            Event::KycRejected(KycStatusChangedEvent { subject, new_status: 3, timestamp: now }),
        );
        Ok(())
    }

    /// Reopens a rejected record, so that the subject may submit again without
    /// waiting.
    pub fn reopen_kyc(env: &mut Ledger, operator: Address, subject: Address) -> (r: Result<
        (),
        ContractError,
    >)
        ensures
            follows(r, reopen_refusal(*old(env), operator, subject)),
            r is Err ==> *final(env) == *old(env),
            r is Ok ==> kyc_reopened(*old(env), *final(env), operator, subject),
    {
        match env.require_admin_or_role(&operator, AdminRole::KycAdmin) {
            Err(e) => {
                return Err(e);
            },
            Ok(_) => {},
        }
        match Self::require_kyc_step(env, &subject, KycStatus::Reopened) {
            Err(e) => {
                return Err(e);
            },
            Ok(_) => {},
        }
        let now: u64 = env.clock.timestamp;
        if let Some(record) = env.kyc.records.get_mut(&subject) {
            record.status = 5;
            record.reviewed_at = Some(now);
        }
        env.log_action(
            operator,
            "reopen_kyc",
            AdminTarget::Account(subject),
            "Rejected",
            "Reopened",
        );
        env.publish(
            Event::KycReopened(KycStatusChangedEvent { subject, new_status: 5, timestamp: now }),
        );
        Ok(())
    }

    /// The status of a subject at present.
    pub fn get_kyc_status(env: &Ledger, subject: Address) -> (s: KycStatus)
        ensures
            s == kyc_status_in(*env, subject),
    {
        match env.kyc.records.get(&subject) {
            None => KycStatus::NotSubmitted,
            Some(record) => current_kyc_status(env.clock.timestamp, record),
        }
    }

    /// Records the outcome of a check: as the latest of its kind, at the end of
    /// the history of its kind, and its kind among the subject's kinds.
    pub fn record_compliance_check(
        env: &mut Ledger,
        subject: Address,
        check_type: String,
        passed: bool,
        score: Option<u32>,
    ) -> (r: Result<(), ContractError>)
        requires
            history_len(*old(env), subject, check_type@) < u64::MAX,
        ensures
            follows(r, admin_refusal(*old(env))),
            r is Err ==> *final(env) == *old(env),
            r is Ok ==> check_recorded(
                *old(env),
                *final(env),
                subject,
                check_type,
                passed,
                score,
            ),
    {
        match env.require_admin() {
            Err(e) => {
                return Err(e);
            },
            Ok(_) => {},
        }
        let now: u64 = env.clock.timestamp;
        let record = ComplianceCheck {
            subject,
            check_type: check_type.clone(),
            result: if passed {
                1
            } else {
                0
            },
            score,
            timestamp: now,
        };
        let idx: u64 = match env.kyc.history_counts.get(&(subject, check_type.clone())) {
            Some(n) => *n,
            None => 0,
        };
        env.kyc.latest.set((subject, check_type.clone()), record.clone());
        env.kyc.history.set((subject, check_type.clone(), idx), record.clone());
        env.kyc.history_counts.set((subject, check_type.clone()), idx + 1);
        let known = match env.kyc.check_types.get(&subject) {
            Some(kinds) => lists(kinds, &check_type),
            None => false,
        };
        if !known {
            if env.kyc.check_types.has(&subject) {
                if let Some(kinds) = env.kyc.check_types.get_mut(&subject) {
                    kinds.push(check_type);
                }
            } else {
                let mut kinds: Vec<String> = Vec::new();
                kinds.push(check_type);
                env.kyc.check_types.set(subject, kinds);
            }
        }
        assert(kinds_of(*env, subject) =~= (if lists_kind(
            kinds_of(*old(env), subject),
            check_type@,
        ) {
            kinds_of(*old(env), subject)
        } else {
            kinds_of(*old(env), subject).push(check_type)
        }));
        env.publish(Event::ComplianceChecked(record));
        Ok(())
    }

    /// The latest check of a kind.
    pub fn get_latest_compliance_check(env: &Ledger, subject: Address, check_type: String) -> (r:
        Option<&ComplianceCheck>)
        ensures
            match r {
                Some(c) => env.kyc.latest@.contains_key((subject, check_type@)) && *c
                    == env.kyc.latest@[(subject, check_type@)],
                None => !env.kyc.latest@.contains_key((subject, check_type@)),
            },
    {
        env.kyc.latest.get(&(subject, check_type))
    }

    /// The last `limit` checks of a kind, fifty at most, oldest first.
    pub fn get_compliance_check_history(
        env: &Ledger,
        subject: Address,
        check_type: String,
        limit: u64,
    ) -> (r: Vec<ComplianceCheck>)
        ensures
            r@ == recent_checks(*env, subject, check_type, limit),
    {
        let total: u64 = match env.kyc.history_counts.get(&(subject, check_type.clone())) {
            Some(n) => *n,
            None => 0,
        };
        let effective_limit: u64 = if limit < 50 {
            limit
        } else {
            50
        };
        let start: u64 = if total > effective_limit {
            total - effective_limit
        } else {
            0
        };
        let mut results: Vec<ComplianceCheck> = Vec::new();
        let mut i: u64 = start;
        while i < total
            invariant
                start <= i <= total,
                results@ == history_range(
                    env.kyc.history@,
                    subject,
                    check_type@,
                    start as int,
                    i as int,
                ),
            decreases total - i,
        {
            if let Some(entry) = env.kyc.history.get(&(subject, check_type.clone(), i)) {
                results.push(entry.clone());
            }
            i = i + 1;
        }
        results
    }

    /// The kinds of checks that were recorded for a subject.
    pub fn list_subject_compliance_checks(env: &Ledger, subject: Address) -> (r: Vec<String>)
        ensures
            r@ == kinds_of(*env, subject),
    {
        let mut result: Vec<String> = Vec::new();
        if let Some(kinds) = env.kyc.check_types.get(&subject) {
            let mut i: usize = 0;
            while i < kinds.len()
                invariant
                    0 <= i <= kinds@.len(),
                    result@ == kinds@.take(i as int),
                decreases kinds@.len() - i,
            {
                result.push(kinds[i].clone());
                assert(kinds@.take(i + 1) =~= kinds@.take(i as int).push(kinds@[i as int]));
                i = i + 1;
            }
            assert(kinds@.take(kinds@.len() as int) =~= kinds@);
        }
        assert(result@ =~= kinds_of(*env, subject));
        result
    }

    /// Whether the latest check of the standard kind has passed.
    pub(crate) fn has_passed_compliance(env: &Ledger, subject: &Address) -> (r: bool)
        ensures
            r == compliance_passed(*env, *subject),
    {
        match env.kyc.latest.get(&(*subject, "kyc".to_owned())) {
            Some(c) => c.result == 1,
            None => false,
        }
    }
}

/// A subject whose record was approved at `now` counts as approved for thirty
/// days and as expired afterwards.
pub proof fn approvals_run_out(record: KycRecord, now: u64, later: u64)
    requires
        now + KYC_EXPIRY_SECONDS <= u64::MAX,
        record.status == 2,
        record.expiry == Some((now + KYC_EXPIRY_SECONDS) as u64),
    ensures
        later <= now + KYC_EXPIRY_SECONDS ==> kyc_status_at(record, later) == KycStatus::Approved,
        later > now + KYC_EXPIRY_SECONDS ==> kyc_status_at(record, later) == KycStatus::Expired,
{
}

/// Only a pending record is approved or rejected, only a rejected one is
/// reopened, and a reopened one may be submitted again at once.
pub proof fn kyc_steps_are_guarded(current: KycStatus, submitted_at: u64, now: u64)
    ensures
        kyc_may_step(current, KycStatus::Approved, submitted_at, now) ==> current
            == KycStatus::Pending,
        kyc_may_step(current, KycStatus::Rejected, submitted_at, now) ==> current
            == KycStatus::Pending,
        kyc_may_step(current, KycStatus::Reopened, submitted_at, now) ==> current
            == KycStatus::Rejected,
        kyc_may_step(KycStatus::Reopened, KycStatus::Pending, submitted_at, now),
        kyc_may_step(KycStatus::Rejected, KycStatus::Pending, submitted_at, now) ==> now
            - submitted_at >= KYC_COOLDOWN_SECONDS,
{
}

/// The latest check of a kind is the last of the history of that kind.
pub proof fn the_latest_check_ends_the_history(
    before: Ledger,
    after: Ledger,
    subject: Address,
    check_type: Seq<char>,
    record: ComplianceCheck,
    from: int,
)
    requires
        history_len(before, subject, check_type) < u64::MAX,
        0 <= from <= history_len(before, subject, check_type),
        after.kyc.latest@ == before.kyc.latest@.insert((subject, check_type), record),
        after.kyc.history@ == before.kyc.history@.insert(
            (subject, check_type, history_len(before, subject, check_type)),
            record,
        ),
        after.kyc.history_counts@ == before.kyc.history_counts@.insert(
            (subject, check_type),
            (history_len(before, subject, check_type) + 1) as u64,
        ),
    ensures
        ({
            let checks = history_range(
                after.kyc.history@,
                subject,
                check_type,
                from,
                history_len(after, subject, check_type) as int,
            );
            checks.len() > 0 && checks.last() == after.kyc.latest@[(subject, check_type)]
        }),
{
}

} // verus!
