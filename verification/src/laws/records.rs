//! Laws of what is logged, and of identifiers that a seed gives.
use crate::address::{strkey_text, Address};
use crate::cache_governance::{
    endorsement_record, entry_type_name, policy_record, refusal_record, CacheEntryType,
    CacheInvalidationProposal, CachePolicySet,
};
use crate::contract::ledger::Ledger;
use crate::deployment_drift::{
    critical_items, drift_items, drift_record, DeploymentSnapshot, DeploymentSpec,
};
use crate::distributed_correlation::{derived_id, hex_digit, hex_text, hex_text_shape, sha2_digest};
use crate::errors::AnchorKitError;
use crate::structured_log::{FieldView, LogLevel};
use vstd::prelude::*;
use vstd::utf8::encode_utf8;

verus! {

/// An accepted change of policies is logged as information, with the longest
/// lifetime of each type of entry. A refused one is logged as a warning, with its
/// error alone. Either carries the time of the ledger.
pub proof fn policy_changes_are_logged(
    env: Ledger,
    policies: CachePolicySet,
    r: Result<(), AnchorKitError>,
)
    ensures
        ({
            let record = policy_record(env, policies, r);
            &&& record.timestamp == env.clock.timestamp
            &&& record.level == LogLevel::Info <==> r is Ok
            &&& record.level == LogLevel::Warn <==> r is Err
            &&& record.event == "cache.policy_updated"@ || r is Err
            &&& record.event == "cache.policy_rejected"@ || r is Ok
            &&& r is Ok ==> {
                &&& record.fields.len() == 3
                &&& record.fields[0].0 == "metadata_max_ttl_seconds"@
                &&& record.fields[0].1 == FieldView::U64(policies.metadata.max_ttl_seconds)
                &&& record.fields[1].0 == "capabilities_max_ttl_seconds"@
                &&& record.fields[1].1 == FieldView::U64(policies.capabilities.max_ttl_seconds)
                &&& record.fields[2].0 == "other_max_ttl_seconds"@
                &&& record.fields[2].1 == FieldView::U64(policies.other.max_ttl_seconds)
            }
            &&& r is Err ==> {
                &&& record.fields.len() == 1
                &&& record.fields[0].0 == "error"@
                &&& record.fields[0].1 == FieldView::Str(r->Err_0.described())
            }
        }),
{
}

/// An endorsement is logged as information, with the proposal, the account of the
/// endorser and how many endorsements there are with it.
pub proof fn endorsements_are_logged(
    env: Ledger,
    after: CacheInvalidationProposal,
    endorser: Address,
    id: u64,
)
    ensures
        ({
            let record = endorsement_record(env, after, endorser, id);
            &&& record.level == LogLevel::Info
            &&& record.event == "cache.proposal_endorsed"@
            &&& record.timestamp == env.clock.timestamp
            &&& record.fields.len() == 3
            &&& record.fields[0] == ("proposal_id"@, FieldView::U64(id))
            &&& record.fields[1] == ("endorser"@, FieldView::Str(strkey_text(endorser.xdr())))
            &&& record.fields[2].0 == "endorsement_count"@
            &&& after.endorsements@.len() <= u64::MAX ==> record.fields[2].1 == FieldView::U64(
                after.endorsements@.len() as u64,
            )
        }),
{
}

/// A refusal to act on a proposal is logged as a warning, under the event it is
/// given for, with the proposal and the error.
pub proof fn refusals_are_logged(env: Ledger, event: Seq<char>, id: u64, error: AnchorKitError)
    ensures
        ({
            let record = refusal_record(env, event, id, error);
            &&& record.level == LogLevel::Warn
            &&& record.event == event
            &&& record.timestamp == env.clock.timestamp
            &&& record.fields.len() == 2
            &&& record.fields[0] == ("proposal_id"@, FieldView::U64(id))
            &&& record.fields[1] == ("error"@, FieldView::Str(error.described()))
        }),
{
}

/// Differences of a deployment are logged as a warning, with the environment, how
/// many there are, and how many of them are critical.
pub proof fn differences_are_logged(spec: DeploymentSpec, snap: DeploymentSnapshot, time: u64)
    ensures
        ({
            let record = drift_record(spec, snap, time);
            &&& record.level == LogLevel::Warn
            &&& record.event == "deployment.drift_detected"@
            &&& record.timestamp == time
            &&& record.fields.len() == 3
            &&& record.fields[0] == ("environment"@, FieldView::Str(spec.environment@))
            &&& record.fields[1] == (
                "item_count"@,
                FieldView::U64(drift_items(spec, snap).len() as u64),
            )
            &&& record.fields[2] == (
                "critical_count"@,
                FieldView::U64(critical_items(spec, snap).len() as u64),
            )
        }),
{
}

/// Types of entries are told apart by their names in the log: the name of
/// metadata has eight letters, that of capabilities twelve and the third five.
pub proof fn names_tell_entry_types_apart(a: CacheEntryType, b: CacheEntryType)
    ensures
        entry_type_name(a) == entry_type_name(b) ==> a == b,
        a is Metadata <==> entry_type_name(a).len() == 8,
        a is Capabilities <==> entry_type_name(a).len() == 12,
        a is Other <==> entry_type_name(a).len() == 5,
{
    reveal_strlit("metadata");
    reveal_strlit("capabilities");
    reveal_strlit("other");
    let (m, n) = (entry_type_name(a), entry_type_name(b));
    assert(m == n ==> m.len() == n.len());
}

/// A described error names its code first, and tells errors of different codes
/// apart where their names have the same length.
pub proof fn descriptions_name_the_code(e: AnchorKitError, other: AnchorKitError)
    ensures
        ({
            let name = e.code.named();
            &&& e.described().len() >= 23 + name.len() + 2
            &&& e.described().subrange(23, 23 + name.len() as int) == name
            &&& e.described()[e.described().len() - 1] == '}'
        }),
        e.described() == other.described() && e.code.named().len() == other.code.named().len()
            ==> e.code.named() == other.code.named(),
{
    code_stands_behind_the_type(e);
    code_stands_behind_the_type(other);
}

proof fn code_stands_behind_the_type(e: AnchorKitError)
    ensures
        e.described().len() >= 23 + e.code.named().len() + 2,
        e.described().subrange(23, 23 + e.code.named().len() as int) == e.code.named(),
        e.described()[e.described().len() - 1] == '}',
{
    reveal_strlit("AnchorKitError { code: ");
    reveal_strlit(" }");
    assert(e.described().subrange(23, 23 + e.code.named().len() as int) =~= e.code.named());
}

/// The digits of a byte stand at twice its place, the high half first.
pub proof fn digits_stand_in_the_order_of_bytes(bytes: Seq<u8>, i: int)
    requires
        0 <= i < bytes.len(),
    ensures
        hex_text(bytes).len() == 2 * bytes.len(),
        hex_text(bytes)[2 * i] == hex_digit((bytes[i] / 16) as u8),
        hex_text(bytes)[2 * i + 1] == hex_digit((bytes[i] % 16) as u8),
    decreases bytes.len(),
{
    hex_text_shape(bytes);
    hex_text_shape(bytes.drop_last());
    if i < bytes.len() - 1 {
        digits_stand_in_the_order_of_bytes(bytes.drop_last(), i);
    }
}

/// The identifier that a seed gives spells the first sixteen bytes of the digest
/// of the seed, the high half of each byte first.
pub proof fn identifiers_spell_the_digest(seed: Seq<char>, i: int)
    requires
        sha2_digest(encode_utf8(seed)).len() == 32,
        0 <= i < 16,
    ensures
        derived_id(seed).len() == 32,
        derived_id(seed)[2 * i] == hex_digit((sha2_digest(encode_utf8(seed))[i] / 16) as u8),
        derived_id(seed)[2 * i + 1] == hex_digit((sha2_digest(encode_utf8(seed))[i] % 16) as u8),
{
    digits_stand_in_the_order_of_bytes(sha2_digest(encode_utf8(seed)).take(16), i);
}

} // verus!
