//! Laws of the details: copies, counts, log entries and what batches come to.
use crate::address::Address;
use crate::contract::access::{
    announces_upgrade, migration_code, migration_entry, quotes_moved, schema_moved,
};
use crate::contract::attestations::{
    batch_accepted, replay_noted, replays_of, same_attestation,
};
use crate::contract::attestors::{attestor_entry, drops_first, is_first};
use crate::contract::events::UpgradeEvent;
use crate::contract::health::score_of_subject;
use crate::contract::kyc::{check_recorded, kinds_of, review_entry};
use crate::contract::ledger::{AdminOutcome, AdminTarget, Ledger};
use crate::contract::limits::limit_entry;
use crate::contract::quotes::migration_of;
use crate::contract::services::{
    service_disabled, service_enabled, service_entry, service_retired, service_unretired,
};
use crate::contract::sessions::{
    logs_pruned, old_count, pruned_by_itself, retention_start, scan_limit, session_opened,
};
use crate::contract::transactions::same_record;
use crate::contract::types::{Attestation, AttestationInput, ContractVersion};
use crate::errors::ErrorCode;
use crate::migration::MigrationError;
use crate::transaction_state_tracker::TransactionStateRecord;
use vstd::prelude::*;

verus! {

/// Copies of transactions and of attestations agree in every part.
pub proof fn copies_agree(
    a: TransactionStateRecord,
    b: TransactionStateRecord,
    x: Attestation,
    y: Attestation,
)
    ensures
        same_record(a, b) ==> {
            &&& a.transaction_id == b.transaction_id
            &&& a.state == b.state
            &&& a.initiator == b.initiator
            &&& a.timestamp == b.timestamp
            &&& a.last_updated == b.last_updated
            &&& a.last_updated_ledger == b.last_updated_ledger
            &&& a.error_message == b.error_message
            &&& a.routing_reason == b.routing_reason
            &&& a.recovery_metadata == b.recovery_metadata
            &&& a.state_history@ == b.state_history@
        },
        same_attestation(x, y) ==> {
            &&& x.id == y.id
            &&& x.issuer == y.issuer
            &&& x.subject == y.subject
            &&& x.timestamp == y.timestamp
            &&& x.payload_hash@ == y.payload_hash@
            &&& x.signature@ == y.signature@
        },
        same_record(a, a),
        same_attestation(x, x),
{
}

/// A noted replay counts one more of its payload and one more in all, and is
/// announced with the issuer; nothing is stored or used up by it.
pub proof fn replays_are_counted(
    before: Ledger,
    after: Ledger,
    issuer: Address,
    hash: Seq<u8>,
    other: Seq<u8>,
)
    requires
        replay_noted(before, after, issuer, hash),
        before.attestations.replay_total < u64::MAX,
        replays_of(before.attestations, hash) < u64::MAX,
    ensures
        replays_of(after.attestations, hash) == replays_of(before.attestations, hash) + 1,
        after.attestations.replay_total == before.attestations.replay_total + 1,
        other != hash ==> replays_of(after.attestations, other) == replays_of(
            before.attestations,
            other,
        ),
        after.attestations.accepted_total == before.attestations.accepted_total,
        after.attestations.records == before.attestations.records,
        after.attestations.used == before.attestations.used,
        after.attestations.counter == before.attestations.counter,
        after.events@.len() == before.events@.len() + 1,
        after.events@.last() is ReplayDetected,
        after.events@.last()->ReplayDetected_0 == issuer,
        after.events@.last()->ReplayDetected_1@ == hash,
{
}

/// An accepted batch is numbered in order from the next number, and leaves
/// everything but attestations and the count of the caller as it was.
pub proof fn batches_are_numbered_in_order(
    before: Ledger,
    after: Ledger,
    caller: Address,
    inputs: &Vec<AttestationInput>,
    out: Vec<u64>,
    i: int,
)
    requires
        batch_accepted(before, after, caller, inputs, out),
        before.attestations.counter + inputs@.len() <= u64::MAX,
    ensures
        out@.len() == inputs@.len(),
        0 <= i < out@.len() ==> out@[i] == before.attestations.counter + i,
        after.attestations.counter == before.attestations.counter + inputs@.len(),
        after.kyc == before.kyc,
        after.events == before.events,
        after.sessions == before.sessions,
{
}

/// The kinds of checks of a subject grow by the kind that was recorded, once, and
/// keep their order; those of others stay.
pub proof fn kinds_are_listed_once(
    before: Ledger,
    after: Ledger,
    subject: Address,
    kind: String,
    passed: bool,
    score: Option<u32>,
    other: Address,
)
    requires
        check_recorded(before, after, subject, kind, passed, score),
    ensures
        exists|i: int|
            0 <= i < kinds_of(after, subject).len() && (#[trigger] kinds_of(after, subject)[i])@
                == kind@,
        forall|i: int|
            0 <= i < kinds_of(before, subject).len() ==> #[trigger] kinds_of(after, subject)[i]
                == kinds_of(before, subject)[i],
        (exists|i: int|
            0 <= i < kinds_of(before, subject).len() && (#[trigger] kinds_of(before, subject)[i])@
                == kind@) ==> kinds_of(after, subject) == kinds_of(before, subject),
        other != subject ==> kinds_of(after, other) == kinds_of(before, other),
{
    let was = kinds_of(before, subject);
    let now = kinds_of(after, subject);
    if exists|i: int| 0 <= i < was.len() && (#[trigger] was[i])@ == kind@ {
        let i = choose|i: int| 0 <= i < was.len() && (#[trigger] was[i])@ == kind@;
        assert(now[i]@ == kind@);
    } else {
        assert(now[was.len() as int]@ == kind@);
    }
}

/// The score of a subject is that of its latest check of the standard kind.
pub proof fn scores_are_of_the_latest_check(
    before: Ledger,
    after: Ledger,
    subject: Address,
    kind: String,
    passed: bool,
    score: Option<u32>,
)
    requires
        check_recorded(before, after, subject, kind, passed, score),
    ensures
        kind@ == "kyc"@ ==> score_of_subject(after, subject) == score,
        kind@ != "kyc"@ ==> score_of_subject(after, subject) == score_of_subject(before, subject),
        !before.kyc.latest@.contains_key((subject, "kyc"@)) ==> score_of_subject(before, subject)
            is None,
{
}

/// Entries of the administrative log name who acted, what was done, to whom, and
/// what was before and after.
pub proof fn log_entries_tell_the_change(
    actor: Address,
    action: &'static str,
    target: Address,
    label: &'static str,
    was: &'static str,
    now: &'static str,
)
    ensures
        review_entry(actor, action, target, was, now) == attestor_entry(
            actor,
            action,
            target,
            was,
            now,
        ),
        service_entry(actor, action, target, was, now) == attestor_entry(
            actor,
            action,
            target,
            was,
            now,
        ),
        ({
            let e = attestor_entry(actor, action, target, was, now);
            &&& e.actor == actor
            &&& e.action == action
            &&& e.target == AdminTarget::Account(target)
            &&& e.before == was
            &&& e.after == AdminOutcome::Label(now)
        }),
        ({
            let e = limit_entry(actor, action, label);
            &&& e.actor == actor
            &&& e.action == action
            &&& e.target == AdminTarget::Label(label)
            &&& e.after == AdminOutcome::Label("updated")
        }),
{
}

/// An upgrade is announced with both hashes, all zeros standing for no code before,
/// and with the new version and its time.
pub proof fn upgrades_are_announced(
    e: UpgradeEvent,
    before: Ledger,
    hash: [u8; 32],
    v: ContractVersion,
    i: int,
)
    requires
        announces_upgrade(e, before, hash, v),
        0 <= i < 32,
    ensures
        e.new_wasm_hash == hash,
        before.access.wasm_hash is Some ==> e.old_wasm_hash == before.access.wasm_hash->0,
        before.access.wasm_hash is None ==> e.old_wasm_hash@[i] == 0,
        e.new_major == v.major,
        e.new_minor == v.minor,
        e.new_patch == v.patch,
        e.upgraded_at == v.upgraded_at,
{
}

/// The schema moves on at once where no quotes are to be rewritten, and else only
/// with the batch that finishes them; until then the cursor tells where to go on.
/// The log tells how many were rewritten.
pub proof fn schemas_wait_for_quotes(before: Ledger, after: Ledger, target: u32, batch: u32)
    ensures
        schema_moved(before, after, target) ==> {
            &&& after.access.schema_version == target
            &&& after.quotes == before.quotes
            &&& after.access.admin == before.access.admin
        },
        quotes_moved(before, after, target, batch) ==> {
            let m = migration_of(before.quotes, batch);
            &&& m.stopped ==> after.access == before.access && after.quotes.migration_cursor
                == Some(m.last)
            &&& !m.stopped ==> after.access.schema_version == target
                && after.quotes.migration_cursor is None
            &&& after.quotes.index == before.quotes.index
            &&& after.quotes.latest == before.quotes.latest
            &&& after.quotes.lifecycle == before.quotes.lifecycle
            &&& m.migrated == 0 ==> after.admin_log@ == before.admin_log@
            &&& m.migrated > 0 ==> after.admin_log@ == before.admin_log@.push(
                migration_entry(before, m.migrated),
            )
        },
        ({
            let e = migration_entry(before, batch as int);
            &&& e.actor == before.access.admin->0
            &&& e.after == AdminOutcome::MigratedQuotes(batch)
        }),
        migration_code(MigrationError::VersionTooNew) == ErrorCode::UnsupportedCapabilityVersion,
        migration_code(MigrationError::VersionNotAdvancing) == ErrorCode::ValidationError,
        migration_code(MigrationError::InvalidTargetVersion) == ErrorCode::ValidationError,
{
}

/// Dropping an address from a list takes its first occurrence and leaves the others
/// in their order.
pub proof fn first_occurrences_are_dropped(
    before: Seq<Address>,
    after: Seq<Address>,
    a: Address,
    other: Address,
)
    requires
        drops_first(before, after, a),
    ensures
        !before.contains(a) ==> after == before,
        before.contains(a) ==> after.len() == before.len() - 1,
        before.contains(a) && before[0] == a ==> after == before.skip(1),
        other != a ==> after.contains(other) == before.contains(other),
{
    if before.contains(a) {
        let i = choose|i: int| #[trigger] is_first(before, a, i) && after == before.remove(i);
        if before[0] == a {
            assert(i == 0);
            assert(before.remove(0) =~= before.skip(1));
        }
        if other != a && before.contains(other) {
            let k = choose|k: int| 0 <= k < before.len() && before[k] == other;
            if k < i {
                assert(after[k] == other);
            } else {
                assert(after[k - 1] == other);
            }
        }
        if other != a && after.contains(other) {
            let k = choose|k: int| 0 <= k < after.len() && after[k] == other;
            if k < i {
                assert(before[k] == other);
            } else {
                assert(before[k + 1] == other);
            }
        }
    }
}

/// Switching a service is logged with who did it and clears what is cached of the
/// anchor exactly where it was a change; retiring one touches no cache and no other
/// anchor.
pub proof fn switches_are_logged(
    before: Ledger,
    after: Ledger,
    caller: Address,
    anchor: Address,
    code: u32,
    out: bool,
    at: Option<u64>,
    notice: Option<String>,
    other: Address,
)
    ensures
        service_enabled(before, after, caller, anchor, code, out) || service_disabled(
            before,
            after,
            caller,
            anchor,
            code,
            out,
        ) ==> {
            &&& after.admin_log@.len() == before.admin_log@.len() + 1
            &&& after.admin_log@.last().actor == caller
            &&& after.admin_log@.last().target == AdminTarget::Account(anchor)
            &&& out ==> !after.cache.metadata@.contains_key(anchor)
                && !after.cache.capabilities@.contains_key(anchor)
            &&& !out ==> after.cache == before.cache
            &&& after.services.configured == before.services.configured
        },
        service_retired(before, after, anchor, code, at, notice) || service_unretired(
            before,
            after,
            anchor,
            code,
        ) ==> {
            &&& after.cache == before.cache
            &&& other != anchor ==> after.services.configured@.contains_key(other)
                == before.services.configured@.contains_key(other)
                && after.services.configured@[other] == before.services.configured@[other]
        },
{
}

/// Pruning drops entries of the log and changes nothing else; an entry that is not
/// older than the time stays as it is. Where reading the count prunes, what went is
/// announced, and nothing is where nothing went.
pub proof fn pruning_leaves_the_rest(before: Ledger, after: Ledger, time: u64, id: u64)
    ensures
        logs_pruned(before, after, time) ==> {
            &&& after.sessions.records == before.sessions.records
            &&& after.sessions.log_count == before.sessions.log_count
            &&& before.sessions.logs@.contains_key(id)
                && before.sessions.logs@[id].operation.timestamp >= time ==> after.sessions.logs@.contains_key(id) && after.sessions.logs@[id]
                == before.sessions.logs@[id]
            &&& !before.sessions.logs@.contains_key(id) ==> !after.sessions.logs@.contains_key(id)
        },
        pruned_by_itself(before, after) ==> {
            let n = old_count(
                before.sessions.logs@,
                retention_start(before),
                scan_limit(before),
            );
            &&& after.sessions.records == before.sessions.records
            &&& n <= 0 ==> after.events@ == before.events@
            &&& 0 < n <= u64::MAX ==> after.events@.len() == before.events@.len() + 1
                && after.events@.last() is AuditPruned
                && after.events@.last()->AuditPruned_0.result_data == n
        },
{
    crate::laws::sessions::pruning_drops_the_old(
        before.sessions.logs@,
        time,
        scan_limit(before),
        id,
    );
}

/// Opening a session for an operation changes no other record, no log and no event.
pub proof fn opening_touches_sessions_only(before: Ledger, after: Ledger, id: u64)
    requires
        session_opened(before, after, id),
    ensures
        after.sessions.logs == before.sessions.logs,
        after.sessions.count == before.sessions.count,
        after.sessions.operation_counts == before.sessions.operation_counts,
        after.events == before.events,
        after.attestations == before.attestations,
{
}

} // verus!
