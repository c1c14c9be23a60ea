//! Laws of names: what is published under a topic, and how errors are called.
use crate::contract::events::Event;
use crate::errors::ErrorCode;
use vstd::prelude::*;

verus! {

/// The character at a place, as a number; zero behind the end.
pub open spec fn letter_at(s: Seq<char>, i: int) -> int {
    if 0 <= i < s.len() {
        s[i] as int
    } else {
        0
    }
}

/// Characters by which topics differ, as one number.
pub open spec fn topic_mark(topic: (Seq<char>, Seq<char>)) -> int {
    0x10000 * letter_at(topic.0, 0) + 0x100 * letter_at(topic.1, 0) + letter_at(topic.1, 4)
}

/// The mark of the topic of each kind of event.
pub open spec fn event_mark(event: Event) -> int {
    match event {
        Event::ContractInitialized(_) => 0x636900,
        Event::AdminProposed(_) => 0x61706f,
        Event::AdminAccepted(_) => 0x616170,
        Event::RoleGranted(_, _) => 0x726774,
        Event::RoleRevoked(_, _) => 0x72726b,
        Event::CapabilityGranted(_, _) => 0x636774,
        Event::CapabilityRevoked(_, _) => 0x63726b,
        Event::ContractUpgraded(_) => 0x637561,
        Event::Sep10KeyRotated(_) => 0x737274,
        Event::AttestorAdded(_) => 0x616164,
        Event::AttestorRemoved(_) => 0x617276,
        Event::AttestorRestored(_) => 0x61726f,
        Event::EndpointChanged(_) => 0x657574,
        Event::WebhookRegistered(_) => 0x777200,
        Event::ServicesConfigured(_) => 0x736369,
        Event::ServiceRetired(_, _) => 0x737272,
        Event::ServiceUnretired(_, _) => 0x737574,
        Event::AttestationRecorded(_, _, _) => 0x617272,
        Event::WebhookDue(_) => 0x776574,
        Event::ReplayDetected(_, _) => 0x726463,
        Event::RateLimitHit(_) => 0x726800,
        Event::KycSubmitted(_) => 0x6b7369,
        Event::KycApproved(_) => 0x6b616f,
        Event::KycRejected(_) => 0x6b7263,
        Event::KycReopened(_) => 0x6b7265,
        Event::ComplianceChecked(_) => 0x63636b,
        Event::SessionCreated(_) => 0x736374,
        Event::SessionClosed(_) => 0x736365,
        Event::SessionExpired(_) => 0x736572,
        Event::QuoteSubmitted(_) => 0x717369,
        Event::QuoteReceived(_) => 0x717269,
        Event::QuoteAccepted(_) => 0x716170,
        Event::QuoteExpired(_) => 0x716572,
        Event::QuoteInvalidated(_) => 0x71696c,
        Event::QuoteRouted(_) => 0x717265,
        Event::QuoteFallback => 0x716662,
        Event::RouteSelected(_) => 0x727363,
        Event::AuditLogged(_) => 0x616c65,
        Event::AuditPruned(_) => 0x617065,
        Event::CacheCompacted(_) => 0x636361,
        Event::CacheInvalidated(_, _) => 0x63696c,
        Event::AnchorBlacklisted(_) => 0x61626b,
        Event::AnchorUnblacklisted(_) => 0x61756b,
        Event::ClusterCreated => 0x636374,
        Event::ClusterDeleted(_) => 0x636474,
        Event::ClusterUpdated(_) => 0x637574,
        Event::ReputationUpdated(_) => 0x727574,
        Event::TimedPolicyAdded(_) => 0x746164,
        Event::NetworkProfileSet(_) => 0x6e7300,
        Event::BudgetCritical(_, _) => 0x546369,
        Event::BudgetWarning(_, _) => 0x547769,
        Event::RecordsEvicted(_) => 0x456265,
        Event::HealthRecorded(_, _, _) => 0x686574,
        Event::HealthWindowRecorded(_, _, _) => 0x68776f,
        Event::ProofRegistered(_, _) => 0x707273,
        Event::ProofFailed(_, _) => 0x706665,
        Event::ProofVerified(_, _) => 0x707666,
    }
}

/// Each kind of event is published under a topic of its own: events with the same
/// topic are of the same kind.
pub proof fn topics_tell_events_apart(a: Event, b: Event)
    ensures
        topic_mark(a.topic()) == event_mark(a),
        a.topic() == b.topic() ==> event_mark(a) == event_mark(b),
{
    topics_have_marks(a);
    topics_have_marks(b);
}

#[verifier::rlimit(50)]
proof fn topics_have_marks(event: Event)
    ensures
        topic_mark(event.topic()) == event_mark(event),
{
    reveal_strlit("contract");
    reveal_strlit("init");
    reveal_strlit("admin");
    reveal_strlit("proposed");
    reveal_strlit("accepted");
    reveal_strlit("role");
    reveal_strlit("granted");
    reveal_strlit("revoked");
    reveal_strlit("cap");
    reveal_strlit("upgraded");
    reveal_strlit("sep10key");
    reveal_strlit("rotated");
    reveal_strlit("attestor");
    reveal_strlit("added");
    reveal_strlit("removed");
    reveal_strlit("restored");
    reveal_strlit("endpoint");
    reveal_strlit("updated");
    reveal_strlit("webhook");
    reveal_strlit("reg");
    reveal_strlit("services");
    reveal_strlit("config");
    reveal_strlit("retire");
    reveal_strlit("unretire");
    reveal_strlit("attest");
    reveal_strlit("recorded");
    reveal_strlit("event");
    reveal_strlit("replay");
    reveal_strlit("detected");
    reveal_strlit("ratelimit");
    reveal_strlit("hit");
    reveal_strlit("kyc");
    reveal_strlit("submitted");
    reveal_strlit("approved");
    reveal_strlit("rejected");
    reveal_strlit("reopened");
    reveal_strlit("comp");
    reveal_strlit("checked");
    reveal_strlit("session");
    reveal_strlit("created");
    reveal_strlit("closed");
    reveal_strlit("expired");
    reveal_strlit("quote");
    reveal_strlit("submit");
    reveal_strlit("received");
    reveal_strlit("invalid");
    reveal_strlit("routed");
    reveal_strlit("fallback");
    reveal_strlit("route");
    reveal_strlit("selected");
    reveal_strlit("audit");
    reveal_strlit("logged");
    reveal_strlit("pruned");
    reveal_strlit("cache");
    reveal_strlit("compact");
    reveal_strlit("anchor");
    reveal_strlit("blacklist");
    reveal_strlit("unblklist");
    reveal_strlit("cluster");
    reveal_strlit("deleted");
    reveal_strlit("rep");
    reveal_strlit("tpol");
    reveal_strlit("netprof");
    reveal_strlit("set");
    reveal_strlit("TXBUDGET");
    reveal_strlit("critical");
    reveal_strlit("warning");
    reveal_strlit("EVICT");
    reveal_strlit("budget");
    reveal_strlit("health");
    reveal_strlit("window");
    reveal_strlit("pop");
    reveal_strlit("register");
    reveal_strlit("failed");
    reveal_strlit("verified");
}

/// What tells the names of errors apart, as one number.
pub open spec fn name_mark(s: Seq<char>) -> int {
    0x10000 * s.len() + 0x100 * letter_at(s, 0) + letter_at(s, 7)
}

/// The mark of the name of each error.
pub open spec fn code_mark(code: ErrorCode) -> int {
    match code {
        ErrorCode::AlreadyInitialized => 0x124149,
        ErrorCode::NotInitialized => 0xe4e69,
        ErrorCode::Unauthorized => 0xc5572,
        ErrorCode::UnauthorizedAttestor => 0x145572,
        ErrorCode::AttestorAlreadyRegistered => 0x194172,
        ErrorCode::AttestorNotRegistered => 0x154172,
        ErrorCode::AttestorRevoked => 0xf4172,
        ErrorCode::AttestorCapacityExceeded => 0x184172,
        ErrorCode::AttestationNotFound => 0x134174,
        ErrorCode::AuditLogNotFound => 0x104167,
        ErrorCode::BatchSizeExceeded => 0x11427a,
        ErrorCode::CacheCapacityExceeded => 0x154370,
        ErrorCode::CacheExpired => 0xc4370,
        ErrorCode::CacheNotFound => 0xd4374,
        ErrorCode::ComplianceNotMet => 0x10436e,
        ErrorCode::EndpointNotSet => 0xe4574,
        ErrorCode::IllegalTransition => 0x114954,
        ErrorCode::InvalidAssetCode => 0x104941,
        ErrorCode::InvalidEndpointFormat => 0x154945,
        ErrorCode::InvalidQuote => 0xc4951,
        ErrorCode::InvalidSep10Token => 0x114953,
        ErrorCode::InvalidServiceType => 0x124953,
        ErrorCode::InvalidTimestamp => 0x104954,
        ErrorCode::InvalidWeights => 0xe4957,
        ErrorCode::KycExpired => 0xa4b72,
        ErrorCode::KycNotFound => 0xb4b6f,
        ErrorCode::KycPending => 0xa4b69,
        ErrorCode::KycRejected => 0xb4b63,
        ErrorCode::NoQuotesAvailable => 0x114e73,
        ErrorCode::QuoteExpired => 0xc5170,
        ErrorCode::QuoteNotFound => 0xd5174,
        ErrorCode::RateLimitExceeded => 0x115269,
        ErrorCode::ReplayAttack => 0xc5274,
        ErrorCode::ServicesNotConfigured => 0x155373,
        ErrorCode::SessionClosed => 0xd5343,
        ErrorCode::SessionExpired => 0xe5345,
        ErrorCode::SessionNotFound => 0xf534e,
        ErrorCode::SessionOperationLimitExceeded => 0x1d534f,
        ErrorCode::SignatureVerificationFailed => 0x1b5372,
        ErrorCode::StaleQuote => 0xa536f,
        ErrorCode::TransactionNotFound => 0x135474,
        ErrorCode::UnsupportedCapabilityVersion => 0x1c5572,
        ErrorCode::ValidationError => 0xf5669,
        ErrorCode::WebhookUrlNotSet => 0x105755,
    }
}

/// No two errors have the same name.
pub proof fn names_tell_errors_apart(a: ErrorCode, b: ErrorCode)
    ensures
        name_mark(a.named()) == code_mark(a),
        a.named() == b.named() ==> a == b,
{
    names_have_marks(a);
    names_have_marks(b);
}

#[verifier::rlimit(50)]
proof fn names_have_marks(code: ErrorCode)
    ensures
        name_mark(code.named()) == code_mark(code),
{
    reveal_strlit("AlreadyInitialized");
    reveal_strlit("NotInitialized");
    reveal_strlit("Unauthorized");
    reveal_strlit("UnauthorizedAttestor");
    reveal_strlit("AttestorAlreadyRegistered");
    reveal_strlit("AttestorNotRegistered");
    reveal_strlit("AttestorRevoked");
    reveal_strlit("AttestorCapacityExceeded");
    reveal_strlit("AttestationNotFound");
    reveal_strlit("AuditLogNotFound");
    reveal_strlit("BatchSizeExceeded");
    reveal_strlit("CacheCapacityExceeded");
    reveal_strlit("CacheExpired");
    reveal_strlit("CacheNotFound");
    reveal_strlit("ComplianceNotMet");
    reveal_strlit("EndpointNotSet");
    reveal_strlit("IllegalTransition");
    reveal_strlit("InvalidAssetCode");
    reveal_strlit("InvalidEndpointFormat");
    reveal_strlit("InvalidQuote");
    reveal_strlit("InvalidSep10Token");
    reveal_strlit("InvalidServiceType");
    reveal_strlit("InvalidTimestamp");
    reveal_strlit("InvalidWeights");
    reveal_strlit("KycExpired");
    reveal_strlit("KycNotFound");
    reveal_strlit("KycPending");
    reveal_strlit("KycRejected");
    reveal_strlit("NoQuotesAvailable");
    reveal_strlit("QuoteExpired");
    reveal_strlit("QuoteNotFound");
    reveal_strlit("RateLimitExceeded");
    reveal_strlit("ReplayAttack");
    reveal_strlit("ServicesNotConfigured");
    reveal_strlit("SessionClosed");
    reveal_strlit("SessionExpired");
    reveal_strlit("SessionNotFound");
    reveal_strlit("SessionOperationLimitExceeded");
    reveal_strlit("SignatureVerificationFailed");
    reveal_strlit("StaleQuote");
    reveal_strlit("TransactionNotFound");
    reveal_strlit("UnsupportedCapabilityVersion");
    reveal_strlit("ValidationError");
    reveal_strlit("WebhookUrlNotSet");
}

} // verus!
