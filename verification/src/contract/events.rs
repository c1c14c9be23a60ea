//! What the contract announces.
use crate::address::Address;
use crate::contract::types::{AdminCapability, AdminRole, Bytes, ComplianceCheck};
use vstd::prelude::*;

verus! {

#[derive(Debug)]
pub struct SessionCreatedEvent {
    pub session_id: u64,
    pub initiator: Address,
    pub timestamp: u64,
}

#[derive(Debug)]
pub struct SessionClosedEvent {
    pub session_id: u64,
    pub initiator: Address,
    pub timestamp: u64,
}

#[derive(Debug)]
pub struct QuoteSubmitEvent {
    pub quote_id: u64,
    pub anchor: Address,
    pub base_asset: String,
    pub quote_asset: String,
    pub rate: u64,
    pub valid_until: u64,
    pub routing_reason: Option<String>,
}

#[derive(Debug)]
pub struct QuoteReceivedEvent {
    pub quote_id: u64,
    pub receiver: Address,
    pub timestamp: u64,
}

#[derive(Debug)]
pub struct AuditLogEvent {
    pub log_id: u64,
    pub session_id: u64,
    pub operation_index: u64,
    pub operation_type: &'static str,
    pub status: &'static str,
    pub result_data: u64,
}

#[derive(Debug)]
pub struct AttestEvent {
    pub payload_hash: Bytes,
    pub timestamp: u64,
}

#[derive(Debug)]
pub struct EndpointUpdated {
    pub attestor: Address,
    pub endpoint: String,
}

#[derive(Debug)]
pub struct WebhookEvent {
    pub event_type: &'static str,
    pub transaction_id: u64,
    pub timestamp: u64,
    pub payload_hash: Bytes,
}

#[derive(Debug)]
pub struct KycStatusChangedEvent {
    pub subject: Address,
    pub new_status: u32,
    pub timestamp: u64,
}

#[derive(Debug)]
pub struct KycEvent {
    pub subject: Address,
    pub submitted_at: u64,
    pub data_hash: Bytes,
}

#[derive(Debug)]
pub struct UpgradeEvent {
    pub old_wasm_hash: [u8; 32],
    pub new_wasm_hash: [u8; 32],
    pub new_major: u32,
    pub new_minor: u32,
    pub new_patch: u32,
    pub upgraded_at: u64,
}

#[derive(Debug)]
pub struct ContractInitializedEvent {
    pub admin: Address,
    pub timestamp: u64,
}

#[derive(Debug)]
pub struct AttestorRegisteredEvent {
    pub attestor: Address,
    pub timestamp: u64,
}

#[derive(Debug)]
pub struct AttestorRevokedEvent {
    pub attestor: Address,
    pub revoked_by: Address,
    pub timestamp: u64,
}

#[derive(Debug)]
pub struct AttestorReactivatedEvent {
    pub attestor: Address,
    pub reactivated_by: Address,
    pub timestamp: u64,
}

#[derive(Debug)]
pub struct RateLimitHitEvent {
    pub attestor: Address,
    pub timestamp: u64,
    pub ledger_sequence: u32,
}

#[derive(Debug)]
pub struct QuoteExpiredEvent {
    pub quote_id: u64,
    pub anchor: Address,
    pub valid_until: u64,
    pub expired_at: u64,
}

#[derive(Debug)]
pub struct WebhookRegisteredEvent {
    pub attestor: Address,
    pub timestamp: u64,
}

#[derive(Debug)]
pub struct ServicesConfiguredEvent {
    pub anchor: Address,
    pub service_count: u32,
    pub capability_version: u32,
    pub timestamp: u64,
}

/// An announcement.
#[derive(Debug)]
pub enum Event {
    ContractInitialized(ContractInitializedEvent),
    AdminProposed(Address),
    AdminAccepted(Address),
    RoleGranted(Address, AdminRole),
    RoleRevoked(Address, AdminRole),
    CapabilityGranted(Address, AdminCapability),
    CapabilityRevoked(Address, AdminCapability),
    ContractUpgraded(UpgradeEvent),
    Sep10KeyRotated(Address),
    AttestorAdded(AttestorRegisteredEvent),
    AttestorRemoved(AttestorRevokedEvent),
    AttestorRestored(AttestorReactivatedEvent),
    EndpointChanged(EndpointUpdated),
    WebhookRegistered(WebhookRegisteredEvent),
    ServicesConfigured(ServicesConfiguredEvent),
    ServiceRetired(Address, u32),
    ServiceUnretired(Address, u32),
    AttestationRecorded(u64, Address, AttestEvent),
    WebhookDue(WebhookEvent),
    ReplayDetected(Address, Bytes),
    RateLimitHit(RateLimitHitEvent),
    KycSubmitted(KycEvent),
    KycApproved(KycStatusChangedEvent),
    KycRejected(KycStatusChangedEvent),
    KycReopened(KycStatusChangedEvent),
    ComplianceChecked(ComplianceCheck),
    SessionCreated(SessionCreatedEvent),
    SessionClosed(SessionClosedEvent),
    SessionExpired(SessionClosedEvent),
    QuoteSubmitted(QuoteSubmitEvent),
    QuoteReceived(QuoteReceivedEvent),
    QuoteAccepted(QuoteReceivedEvent),
    QuoteExpired(QuoteExpiredEvent),
    QuoteInvalidated(u64),
    QuoteRouted(u64),
    QuoteFallback,
    RouteSelected(WebhookEvent),
    AuditLogged(AuditLogEvent),
    AuditPruned(AuditLogEvent),
    CacheCompacted(u64),
    CacheInvalidated(Address, u64),
    AnchorBlacklisted(Address),
    AnchorUnblacklisted(Address),
    ClusterCreated,
    ClusterDeleted(String),
    ClusterUpdated(String),
    ReputationUpdated(Address),
    TimedPolicyAdded(u64),
    NetworkProfileSet(String),
    BudgetCritical(u64, u64),
    BudgetWarning(u64, u64),
    RecordsEvicted(u32),
    HealthRecorded(Address, bool, u32),
    HealthWindowRecorded(Address, u64, u64),
    ProofRegistered(Address, u64),
    ProofFailed(Address, u64),
    ProofVerified(Address, u64),
}

impl Event {
    /// The topic under which the event is published: what it is about, and
    /// what happened to it.
    pub open spec fn topic(self) -> (Seq<char>, Seq<char>) {
        match self {
            Event::ContractInitialized(_) => ("contract"@, "init"@),
            Event::AdminProposed(_) => ("admin"@, "proposed"@),
            Event::AdminAccepted(_) => ("admin"@, "accepted"@),
            Event::RoleGranted(_, _) => ("role"@, "granted"@),
            Event::RoleRevoked(_, _) => ("role"@, "revoked"@),
            Event::CapabilityGranted(_, _) => ("cap"@, "granted"@),
            Event::CapabilityRevoked(_, _) => ("cap"@, "revoked"@),
            Event::ContractUpgraded(_) => ("contract"@, "upgraded"@),
            Event::Sep10KeyRotated(_) => ("sep10key"@, "rotated"@),
            Event::AttestorAdded(_) => ("attestor"@, "added"@),
            Event::AttestorRemoved(_) => ("attestor"@, "removed"@),
            Event::AttestorRestored(_) => ("attestor"@, "restored"@),
            Event::EndpointChanged(_) => ("endpoint"@, "updated"@),
            Event::WebhookRegistered(_) => ("webhook"@, "reg"@),
            Event::ServicesConfigured(_) => ("services"@, "config"@),
            Event::ServiceRetired(_, _) => ("services"@, "retire"@),
            Event::ServiceUnretired(_, _) => ("services"@, "unretire"@),
            Event::AttestationRecorded(_, _, _) => ("attest"@, "recorded"@),
            Event::WebhookDue(_) => ("webhook"@, "event"@),
            Event::ReplayDetected(_, _) => ("replay"@, "detected"@),
            Event::RateLimitHit(_) => ("ratelimit"@, "hit"@),
            Event::KycSubmitted(_) => ("kyc"@, "submitted"@),
            Event::KycApproved(_) => ("kyc"@, "approved"@),
            Event::KycRejected(_) => ("kyc"@, "rejected"@),
            Event::KycReopened(_) => ("kyc"@, "reopened"@),
            Event::ComplianceChecked(_) => ("comp"@, "checked"@),
            Event::SessionCreated(_) => ("session"@, "created"@),
            Event::SessionClosed(_) => ("session"@, "closed"@),
            Event::SessionExpired(_) => ("session"@, "expired"@),
            Event::QuoteSubmitted(_) => ("quote"@, "submit"@),
            Event::QuoteReceived(_) => ("quote"@, "received"@),
            Event::QuoteAccepted(_) => ("quote"@, "accepted"@),
            Event::QuoteExpired(_) => ("quote"@, "expired"@),
            Event::QuoteInvalidated(_) => ("quote"@, "invalid"@),
            Event::QuoteRouted(_) => ("quote"@, "routed"@),
            Event::QuoteFallback => ("quote"@, "fallback"@),
            Event::RouteSelected(_) => ("route"@, "selected"@),
            Event::AuditLogged(_) => ("audit"@, "logged"@),
            Event::AuditPruned(_) => ("audit"@, "pruned"@),
            Event::CacheCompacted(_) => ("cache"@, "compact"@),
            Event::CacheInvalidated(_, _) => ("cache"@, "invalid"@),
            Event::AnchorBlacklisted(_) => ("anchor"@, "blacklist"@),
            Event::AnchorUnblacklisted(_) => ("anchor"@, "unblklist"@),
            Event::ClusterCreated => ("cluster"@, "created"@),
            Event::ClusterDeleted(_) => ("cluster"@, "deleted"@),
            Event::ClusterUpdated(_) => ("cluster"@, "updated"@),
            Event::ReputationUpdated(_) => ("rep"@, "updated"@),
            Event::TimedPolicyAdded(_) => ("tpol"@, "added"@),
            Event::NetworkProfileSet(_) => ("netprof"@, "set"@),
            Event::BudgetCritical(_, _) => ("TXBUDGET"@, "critical"@),
            Event::BudgetWarning(_, _) => ("TXBUDGET"@, "warning"@),
            Event::RecordsEvicted(_) => ("EVICT"@, "budget"@),
            Event::HealthRecorded(_, _, _) => ("health"@, "event"@),
            Event::HealthWindowRecorded(_, _, _) => ("health"@, "window"@),
            Event::ProofRegistered(_, _) => ("pop"@, "register"@),
            Event::ProofFailed(_, _) => ("pop"@, "failed"@),
            Event::ProofVerified(_, _) => ("pop"@, "verified"@),
        }
    }

    /// The topic under which the event is published.
    pub fn topic_names(&self) -> (r: (&'static str, &'static str))
        ensures
            (r.0@, r.1@) == self.topic(),
    {
        match self {
            Event::ContractInitialized(_) => ("contract", "init"),
            Event::AdminProposed(_) => ("admin", "proposed"),
            Event::AdminAccepted(_) => ("admin", "accepted"),
            Event::RoleGranted(_, _) => ("role", "granted"),
            Event::RoleRevoked(_, _) => ("role", "revoked"),
            Event::CapabilityGranted(_, _) => ("cap", "granted"),
            Event::CapabilityRevoked(_, _) => ("cap", "revoked"),
            Event::ContractUpgraded(_) => ("contract", "upgraded"),
            Event::Sep10KeyRotated(_) => ("sep10key", "rotated"),
            Event::AttestorAdded(_) => ("attestor", "added"),
            Event::AttestorRemoved(_) => ("attestor", "removed"),
            Event::AttestorRestored(_) => ("attestor", "restored"),
            Event::EndpointChanged(_) => ("endpoint", "updated"),
            Event::WebhookRegistered(_) => ("webhook", "reg"),
            Event::ServicesConfigured(_) => ("services", "config"),
            Event::ServiceRetired(_, _) => ("services", "retire"),
            Event::ServiceUnretired(_, _) => ("services", "unretire"),
            Event::AttestationRecorded(_, _, _) => ("attest", "recorded"),
            Event::WebhookDue(_) => ("webhook", "event"),
            Event::ReplayDetected(_, _) => ("replay", "detected"),
            Event::RateLimitHit(_) => ("ratelimit", "hit"),
            Event::KycSubmitted(_) => ("kyc", "submitted"),
            Event::KycApproved(_) => ("kyc", "approved"),
            Event::KycRejected(_) => ("kyc", "rejected"),
            Event::KycReopened(_) => ("kyc", "reopened"),
            Event::ComplianceChecked(_) => ("comp", "checked"),
            Event::SessionCreated(_) => ("session", "created"),
            Event::SessionClosed(_) => ("session", "closed"),
            Event::SessionExpired(_) => ("session", "expired"),
            Event::QuoteSubmitted(_) => ("quote", "submit"),
            Event::QuoteReceived(_) => ("quote", "received"),
            Event::QuoteAccepted(_) => ("quote", "accepted"),
            Event::QuoteExpired(_) => ("quote", "expired"),
            Event::QuoteInvalidated(_) => ("quote", "invalid"),
            Event::QuoteRouted(_) => ("quote", "routed"),
            Event::QuoteFallback => ("quote", "fallback"),
            Event::RouteSelected(_) => ("route", "selected"),
            Event::AuditLogged(_) => ("audit", "logged"),
            Event::AuditPruned(_) => ("audit", "pruned"),
            Event::CacheCompacted(_) => ("cache", "compact"),
            Event::CacheInvalidated(_, _) => ("cache", "invalid"),
            Event::AnchorBlacklisted(_) => ("anchor", "blacklist"),
            Event::AnchorUnblacklisted(_) => ("anchor", "unblklist"),
            Event::ClusterCreated => ("cluster", "created"),
            Event::ClusterDeleted(_) => ("cluster", "deleted"),
            Event::ClusterUpdated(_) => ("cluster", "updated"),
            Event::ReputationUpdated(_) => ("rep", "updated"),
            Event::TimedPolicyAdded(_) => ("tpol", "added"),
            Event::NetworkProfileSet(_) => ("netprof", "set"),
            Event::BudgetCritical(_, _) => ("TXBUDGET", "critical"),
            Event::BudgetWarning(_, _) => ("TXBUDGET", "warning"),
            Event::RecordsEvicted(_) => ("EVICT", "budget"),
            Event::HealthRecorded(_, _, _) => ("health", "event"),
            Event::HealthWindowRecorded(_, _, _) => ("health", "window"),
            Event::ProofRegistered(_, _) => ("pop", "register"),
            Event::ProofFailed(_, _) => ("pop", "failed"),
            Event::ProofVerified(_, _) => ("pop", "verified"),
        }
    }
}

} // verus!
