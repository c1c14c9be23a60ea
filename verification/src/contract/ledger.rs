//! The ledger as the contract sees it: the clock, who signed, what is stored,
//! and what has been announced.
use crate::address::Address;
use crate::cache_governance::{CacheGovernanceConfig, CacheInvalidationProposal, CachePolicySet};
use crate::contract::events::Event;
use crate::contract::types::{
    AdminCapability, AdminRole, AnchorBlacklistEntry, AnchorCluster, AnchorHealthMetrics,
    AnchorHealthWindow, AnchorMetadataVersion, AnchorProofRecord, AnchorReputationRecord,
    AnchorServices, Attestation, AttestorProfile, AttestorRevocationRecord, AuditLog, Bytes,
    CacheConfig, CachedToml, CapabilitiesCache, CapacityConfig, ComplianceCheck, CompliancePolicy,
    ContractVersion, KycRecord, MetadataCache, NetworkRoutingProfile, Quote, QuoteLifecycleState,
    QuoteV1, RefreshDiagnostic, ReputationWeights, RequestContext, RoutingAnchorMeta, Session,
    TimedRoutingPolicy, TracingContext, TracingSpan,
};
use crate::errors::ErrorCode;
use crate::migration::MigrationRecord;
use crate::rate_limiter::{RateLimitConfig, RateLimitState};
use crate::service_management::{ServiceConfigSnapshot, ServiceToggleState};
use crate::table::Table;
use crate::transaction_state_tracker::TransactionStateRecord;
use vstd::prelude::*;

verus! {

/// The contract. Its entry points are associated functions over a [`Ledger`].
pub struct AnchorKitContract;

/// Why an entry point refuses a call.
#[derive(Clone, Copy, Debug, PartialEq, Eq)]
pub enum ContractError {
    /// The contract itself refuses.
    Code(ErrorCode),
    /// The address has not authorised the call.
    AuthRequired(Address),
    /// The signature does not verify.
    SignatureInvalid,
}

/// The ledger's clock.
#[derive(Clone, Copy, Debug, PartialEq, Eq, Structural)]
pub struct LedgerClock {
    pub timestamp: u64,
    pub sequence: u32,
}

/// Who has authorised the call.
#[derive(Debug)]
pub struct Auth {
    pub all: bool,
    pub signers: Vec<Address>,
}

impl Auth {
    /// Whether the address has authorised the call.
    pub open spec fn covers(self, a: Address) -> bool {
        self.all || self.signers@.contains(a)
    }

    /// Whether the address has authorised the call.
    pub fn authorizes(&self, a: &Address) -> (r: bool)
        ensures
            r == self.covers(*a),
    {
        if self.all {
            return true;
        }
        let mut i: usize = 0;
        while i < self.signers.len()
            invariant
                !self.all,
                0 <= i <= self.signers@.len(),
                forall|j: int| 0 <= j < i ==> self.signers@[j] != *a,
            decreases self.signers@.len() - i,
        {
            if self.signers[i].equals(a) {
                return true;
            }
            i = i + 1;
        }
        false
    }
}

/// What an administrative action was about.
#[derive(Clone, Copy, Debug, PartialEq, Eq)]
pub enum AdminTarget {
    Account(Address),
    Label(&'static str),
}

/// What an administrative action led to.
#[derive(Clone, Copy, Debug, PartialEq, Eq)]
pub enum AdminOutcome {
    Label(&'static str),
    MigratedQuotes(u32),
}

/// An entry of the administrative log.
#[derive(Clone, Copy, Debug, PartialEq, Eq)]
pub struct AdminAction {
    pub actor: Address,
    pub action: &'static str,
    pub target: AdminTarget,
    pub before: &'static str,
    pub after: AdminOutcome,
}

/// Administration and code version.
pub struct AccessState {
    pub initialized: bool,
    pub admin: Option<Address>,
    pub pending_admin: Option<Address>,
    pub roles: Table<(AdminRole, Address), bool>,
    pub capabilities: Table<(AdminCapability, Address), bool>,
    pub version: Option<ContractVersion>,
    pub wasm_hash: Option<[u8; 32]>,
    pub schema_version: u32,
    pub migrations: Vec<MigrationRecord>,
}

impl AccessState {
    /// Whether nothing is on record.
    pub open spec fn blank(self) -> bool {
        &&& !self.initialized
        &&& self.admin is None
        &&& self.pending_admin is None
        &&& self.roles.blank()
        &&& self.capabilities.blank()
        &&& self.version is None
        &&& self.wasm_hash is None
        &&& self.schema_version == 0
        &&& self.migrations@.len() == 0
    }
}

/// Settings.
#[derive(Clone, Copy, Debug)]
pub struct ConfigState {
    pub cache: Option<CacheConfig>,
    pub capacity: Option<CapacityConfig>,
    pub compliance: Option<CompliancePolicy>,
    pub jwt_max_len: Option<u32>,
    pub jwt_skew: Option<u64>,
    pub audit_retention: Option<u64>,
    pub auto_prune: Option<u32>,
    pub eviction_enabled: Option<bool>,
    pub eviction_max: Option<u32>,
    pub budget_warning: Option<u64>,
    pub budget_critical: Option<u64>,
}

impl ConfigState {
    /// Whether nothing is on record.
    pub open spec fn blank(self) -> bool {
        &&& self.cache is None
        &&& self.capacity is None
        &&& self.compliance is None
        &&& self.jwt_max_len is None
        &&& self.jwt_skew is None
        &&& self.audit_retention is None
        &&& self.auto_prune is None
        &&& self.eviction_enabled is None
        &&& self.eviction_max is None
        &&& self.budget_warning is None
        &&& self.budget_critical is None
    }
}

/// Attestors and their keys.
pub struct AttestorState {
    pub registered: Table<Address, bool>,
    pub public_keys: Table<Address, [u8; 32]>,
    pub revocations: Table<Address, AttestorRevocationRecord>,
    pub profiles: Table<Address, AttestorProfile>,
    pub proofs: Table<Address, AnchorProofRecord>,
    pub count: u64,
    pub list: Vec<Address>,
    pub sep10_keys: Table<Address, Bytes>,
    pub old_sep10_keys: Table<Address, Bytes>,
    pub jtis: Table<Bytes, bool>,
    pub jti_index: Vec<Bytes>,
}

impl AttestorState {
    /// Whether nothing is on record.
    pub open spec fn blank(self) -> bool {
        &&& self.registered.blank()
        &&& self.public_keys.blank()
        &&& self.revocations.blank()
        &&& self.profiles.blank()
        &&& self.proofs.blank()
        &&& self.count == 0
        &&& self.list@.len() == 0
        &&& self.sep10_keys.blank()
        &&& self.old_sep10_keys.blank()
        &&& self.jtis.blank()
        &&& self.jti_index@.len() == 0
    }
}

/// Services of anchors.
pub struct ServiceState {
    pub configured: Table<Address, AnchorServices>,
    pub toggled: Table<Address, ServiceToggleState>,
    pub snapshots: Table<u64, ServiceConfigSnapshot>,
    pub snapshot_count: u64,
}

impl ServiceState {
    /// Whether nothing is on record.
    pub open spec fn blank(self) -> bool {
        &&& self.configured.blank()
        &&& self.toggled.blank()
        &&& self.snapshots.blank()
        &&& self.snapshot_count == 0
    }
}

/// Attestations and replay protection.
pub struct AttestationState {
    pub counter: u64,
    pub records: Table<u64, Attestation>,
    pub index: Vec<u64>,
    pub used: Table<(Address, Bytes), u64>,
    pub session_used: Table<(u64, Bytes), bool>,
    pub replays: Table<Bytes, u64>,
    pub replay_total: u64,
    pub accepted_total: u64,
}

impl AttestationState {
    /// Whether nothing is on record.
    pub open spec fn blank(self) -> bool {
        &&& self.counter == 0
        &&& self.records.blank()
        &&& self.index@.len() == 0
        &&& self.used.blank()
        &&& self.session_used.blank()
        &&& self.replays.blank()
        &&& self.replay_total == 0
        &&& self.accepted_total == 0
    }
}

/// Requests and traces.
pub struct TracingState {
    pub request_counter: u64,
    pub spans: Table<Bytes, TracingSpan>,
    pub roots: Table<Bytes, TracingContext>,
    pub children: Table<(Bytes, u32), Bytes>,
    pub requests: Table<Bytes, RequestContext>,
}

impl TracingState {
    /// Whether nothing is on record.
    pub open spec fn blank(self) -> bool {
        &&& self.request_counter == 0
        &&& self.spans.blank()
        &&& self.roots.blank()
        &&& self.children.blank()
        &&& self.requests.blank()
    }
}

/// Identity and compliance checks.
pub struct KycState {
    pub records: Table<Address, KycRecord>,
    pub data_hashes: Table<Address, Bytes>,
    pub latest: Table<(Address, String), ComplianceCheck>,
    pub history: Table<(Address, String, u64), ComplianceCheck>,
    pub history_counts: Table<(Address, String), u64>,
    pub check_types: Table<Address, Vec<String>>,
}

impl KycState {
    /// Whether nothing is on record.
    pub open spec fn blank(self) -> bool {
        &&& self.records.blank()
        &&& self.data_hashes.blank()
        &&& self.latest.blank()
        &&& self.history.blank()
        &&& self.history_counts.blank()
        &&& self.check_types.blank()
    }
}

/// Sessions and the audit log.
pub struct SessionStore {
    pub count: u64,
    pub records: Table<u64, Session>,
    pub operation_counts: Table<u64, u64>,
    pub log_count: u64,
    pub logs: Table<u64, AuditLog>,
    pub session_logs: Table<(u64, u64), u64>,
}

impl SessionStore {
    /// Whether nothing is on record.
    pub open spec fn blank(self) -> bool {
        &&& self.count == 0
        &&& self.records.blank()
        &&& self.operation_counts.blank()
        &&& self.log_count == 0
        &&& self.logs.blank()
        &&& self.session_logs.blank()
    }
}

/// Quotes.
pub struct QuoteState {
    pub count: u64,
    pub records: Table<(Address, u64), Quote>,
    pub legacy: Table<(Address, u64), QuoteV1>,
    pub lifecycle: Table<(Address, u64), QuoteLifecycleState>,
    pub index: Vec<u64>,
    pub anchors: Table<u64, Address>,
    pub latest: Table<Address, u64>,
    pub migration_cursor: Option<u64>,
}

impl QuoteState {
    /// Whether nothing is on record.
    pub open spec fn blank(self) -> bool {
        &&& self.count == 0
        &&& self.records.blank()
        &&& self.legacy.blank()
        &&& self.lifecycle.blank()
        &&& self.index@.len() == 0
        &&& self.anchors.blank()
        &&& self.latest.blank()
        &&& self.migration_cursor is None
    }
}

/// Caches and the proposals to clear them.
pub struct CacheState {
    pub count: u64,
    pub metadata: Table<Address, Temporary<MetadataCache>>,
    pub capabilities: Table<Address, Temporary<CapabilitiesCache>>,
    pub tomls: Table<Address, Temporary<CachedToml>>,
    pub refreshes: Table<(Address, String), RefreshDiagnostic>,
    pub policies: Option<CachePolicySet>,
    pub governance: Option<CacheGovernanceConfig>,
    pub proposals: Table<u64, CacheInvalidationProposal>,
    pub proposal_count: u64,
}

impl CacheState {
    /// Whether nothing is on record.
    pub open spec fn blank(self) -> bool {
        &&& self.count == 0
        &&& self.metadata.blank()
        &&& self.capabilities.blank()
        &&& self.tomls.blank()
        &&& self.refreshes.blank()
        &&& self.policies is None
        &&& self.governance is None
        &&& self.proposals.blank()
        &&& self.proposal_count == 0
    }
}

/// A temporary entry with the lifetime, in ledgers, that it was given last.
#[derive(Debug)]
pub struct Temporary<T> {
    pub value: T,
    pub ledger_ttl: u32,
}

/// What routing goes by.
pub struct RoutingState {
    pub metadata: Table<Address, RoutingAnchorMeta>,
    pub versions: Table<Address, u32>,
    pub history: Table<(Address, u32), AnchorMetadataVersion>,
    pub anchors: Vec<Address>,
    pub blacklist: Table<Address, AnchorBlacklistEntry>,
    pub blacklist_index: Vec<Address>,
    pub clusters: Table<String, AnchorCluster>,
    pub cluster_ids: Vec<String>,
    pub reputations: Table<Address, AnchorReputationRecord>,
    pub weights: Option<ReputationWeights>,
    pub policies: Table<u64, TimedRoutingPolicy>,
    pub policy_count: u64,
    pub profiles: Table<String, NetworkRoutingProfile>,
    pub active_network: Option<String>,
    pub default_network: Option<String>,
}

impl RoutingState {
    /// Whether nothing is on record.
    pub open spec fn blank(self) -> bool {
        &&& self.metadata.blank()
        &&& self.versions.blank()
        &&& self.history.blank()
        &&& self.anchors@.len() == 0
        &&& self.blacklist.blank()
        &&& self.blacklist_index@.len() == 0
        &&& self.clusters.blank()
        &&& self.cluster_ids@.len() == 0
        &&& self.reputations.blank()
        &&& self.weights is None
        &&& self.policies.blank()
        &&& self.policy_count == 0
        &&& self.profiles.blank()
        &&& self.active_network is None
        &&& self.default_network is None
    }
}

/// Transaction records.
pub struct TransactionStore {
    pub records: Table<u64, TransactionStateRecord>,
    pub ids: Vec<u64>,
}

impl TransactionStore {
    /// Whether nothing is on record.
    pub open spec fn blank(self) -> bool {
        &&& self.records.blank()
        &&& self.ids@.len() == 0
    }
}

/// Rate limits.
pub struct RateState {
    pub config: Option<RateLimitConfig>,
    pub roles: Table<String, RateLimitConfig>,
    pub addresses: Table<Address, RateLimitConfig>,
    pub states: Table<Address, RateLimitState>,
}

impl RateState {
    /// Whether nothing is on record.
    pub open spec fn blank(self) -> bool {
        &&& self.config is None
        &&& self.roles.blank()
        &&& self.addresses.blank()
        &&& self.states.blank()
    }
}

/// Health of anchors.
pub struct HealthState {
    pub metrics: Table<Address, AnchorHealthMetrics>,
    pub windows: Table<Address, Vec<AnchorHealthWindow>>,
}

impl HealthState {
    /// Whether nothing is on record.
    pub open spec fn blank(self) -> bool {
        &&& self.metrics.blank()
        &&& self.windows.blank()
    }
}

/// Everything that an entry point reads or writes.
pub struct Ledger {
    pub clock: LedgerClock,
    pub auth: Auth,
    pub events: Vec<Event>,
    pub admin_log: Vec<AdminAction>,
    pub access: AccessState,
    pub config: ConfigState,
    pub attestors: AttestorState,
    pub services: ServiceState,
    pub attestations: AttestationState,
    pub tracing: TracingState,
    pub kyc: KycState,
    pub sessions: SessionStore,
    pub quotes: QuoteState,
    pub cache: CacheState,
    pub routing: RoutingState,
    pub transactions: TransactionStore,
    pub rates: RateState,
    pub health: HealthState,
}

/// The first of two refusals.
pub open spec fn either(a: Option<ContractError>, b: Option<ContractError>) -> Option<
    ContractError,
> {
    match a {
        Some(e) => Some(e),
        None => b,
    }
}

/// A refusal with `code` when `bad` holds.
pub open spec fn refuse_when(bad: bool, code: ErrorCode) -> Option<ContractError> {
    if bad {
        Some(ContractError::Code(code))
    } else {
        None
    }
}

/// A result that is refused exactly when there is a refusal.
pub open spec fn follows<T>(r: Result<T, ContractError>, refusal: Option<ContractError>) -> bool {
    match refusal {
        Some(e) => r == Err::<T, ContractError>(e),
        None => r is Ok,
    }
}

/// The refusal of a call that the address has not authorised.
pub open spec fn auth_refusal(env: Ledger, a: Address) -> Option<ContractError> {
    if env.auth.covers(a) {
        None
    } else {
        Some(ContractError::AuthRequired(a))
    }
}

/// The refusal of a call that the admin has not authorised.
pub open spec fn admin_refusal(env: Ledger) -> Option<ContractError> {
    match env.access.admin {
        None => Some(ContractError::Code(ErrorCode::NotInitialized)),
        Some(a) => auth_refusal(env, a),
    }
}

/// Whether the address is the admin.
pub open spec fn is_admin(env: Ledger, a: Address) -> bool {
    env.access.admin == Some(a)
}

/// Whether the address has been granted the role.
pub open spec fn role_granted(env: Ledger, a: Address, role: AdminRole) -> bool {
    env.access.roles@.contains_key((role, a)) && env.access.roles@[(role, a)]
}

/// Whether the address has been granted the capability.
pub open spec fn capability_granted(env: Ledger, a: Address, cap: AdminCapability) -> bool {
    env.access.capabilities@.contains_key((cap, a)) && env.access.capabilities@[(cap, a)]
}

/// Whether the address is the admin or has been granted the role.
pub open spec fn holds_role(env: Ledger, a: Address, role: AdminRole) -> bool {
    is_admin(env, a) || role_granted(env, a, role)
}

/// Whether the address is the admin or has been granted the capability.
pub open spec fn holds_capability(env: Ledger, a: Address, cap: AdminCapability) -> bool {
    is_admin(env, a) || capability_granted(env, a, cap)
}

/// A group of operations that the admin shares with those who were granted its
/// role or its capability.
#[derive(Clone, Copy, Debug, PartialEq, Eq, Structural)]
pub enum Duty {
    /// Replacing the code of the contract.
    Upgrade,
    /// Advancing the schema version.
    Migrate,
    /// The lifetimes of cache entries.
    CacheSettings,
    /// The register of attestors.
    Attestors,
    /// The entries of the cache.
    CacheEntries,
    /// The keys and limits of tokens.
    TokenSettings,
    /// The metadata and the blacklist of anchors.
    AnchorMetadata,
}

/// Whether the address is entrusted with the duty.
pub open spec fn entrusted(env: Ledger, duty: Duty, a: Address) -> bool {
    match duty {
        Duty::Upgrade => holds_capability(env, a, AdminCapability::UpgradeContract),
        Duty::Migrate => holds_capability(env, a, AdminCapability::MigrateSchema),
        Duty::CacheSettings => holds_capability(env, a, AdminCapability::SetCacheConfig),
        Duty::Attestors => holds_role(env, a, AdminRole::AttestorAdmin) || holds_capability(
            env,
            a,
            AdminCapability::ManageAttestors,
        ),
        Duty::CacheEntries => holds_role(env, a, AdminRole::CacheAdmin) || holds_capability(
            env,
            a,
            AdminCapability::ManageCacheEntries,
        ),
        Duty::TokenSettings => holds_capability(env, a, AdminCapability::SetJwtConfig),
        Duty::AnchorMetadata => holds_capability(env, a, AdminCapability::ManageAnchorMetadata),
    }
}

/// Whether a signer of the call is entrusted with the duty.
pub open spec fn signed_by_delegate(env: Ledger, duty: Duty) -> bool {
    exists|i: int|
        0 <= i < env.auth.signers@.len() && entrusted(env, duty, #[trigger] env.auth.signers@[i])
}

/// Why a caller may not carry out a duty: the contract has no admin, the caller
/// was granted neither the role nor the capability, or did not sign the call.
pub open spec fn delegate_refusal(env: Ledger, caller: Address, duty: Duty) -> Option<ContractError> {
    if env.access.admin is None {
        Some(ContractError::Code(ErrorCode::NotInitialized))
    } else if !entrusted(env, duty, caller) {
        Some(ContractError::Code(ErrorCode::Unauthorized))
    } else {
        auth_refusal(env, caller)
    }
}

/// The refusal of a call that nobody entrusted with the duty has signed. Where
/// the code, the lifetimes of cache entries or the register of attestors are
/// concerned it has a code of its own; otherwise it asks the admin to sign.
pub open spec fn unsigned_duty(duty: Duty, admin: Address) -> ContractError {
    match duty {
        Duty::Upgrade | Duty::CacheSettings | Duty::Attestors => ContractError::Code(
            ErrorCode::UnauthorizedAttestor,
        ),
        _ => ContractError::AuthRequired(admin),
    }
}

/// Why a call may not carry out a duty: the contract has no admin, or neither
/// the admin nor one who was granted the role or the capability signed it.
pub open spec fn duty_refusal(env: Ledger, duty: Duty) -> Option<ContractError> {
    match env.access.admin {
        None => Some(ContractError::Code(ErrorCode::NotInitialized)),
        Some(a) => if signed_by_delegate(env, duty) || env.auth.covers(a) {
            None
        } else {
            Some(unsigned_duty(duty, a))
        },
    }
}

/// The refusal of a caller without the role.
pub open spec fn role_refusal(env: Ledger, caller: Address, role: AdminRole) -> Option<ContractError> {
    if env.access.admin is None {
        Some(ContractError::Code(ErrorCode::NotInitialized))
    } else if !holds_role(env, caller, role) {
        Some(ContractError::Code(ErrorCode::Unauthorized))
    } else {
        auth_refusal(env, caller)
    }
}

/// The refusal of a caller without the capability.
pub open spec fn capability_refusal(env: Ledger, caller: Address, cap: AdminCapability) -> Option<
    ContractError,
> {
    if !holds_capability(env, caller, cap) {
        Some(ContractError::Code(ErrorCode::Unauthorized))
    } else {
        auth_refusal(env, caller)
    }
}

/// The refusal of an address that is no attestor, telling a revoked one from
/// one never registered.
pub open spec fn attestor_refusal(env: Ledger, a: Address) -> Option<ContractError> {
    if env.attestors.registered@.contains_key(a) {
        None
    } else if env.attestors.revocations@.contains_key(a) {
        Some(ContractError::Code(ErrorCode::AttestorRevoked))
    } else {
        Some(ContractError::Code(ErrorCode::AttestorNotRegistered))
    }
}

impl Ledger {
    /// An empty ledger at the given clock.
    pub fn new(timestamp: u64, sequence: u32) -> (env: Self)
        ensures
            env.clock == (LedgerClock { timestamp, sequence }),
            !env.auth.all,
            env.auth.signers@.len() == 0,
            env.events@.len() == 0,
            env.admin_log@.len() == 0,
            env.access.blank(),
            env.config.blank(),
            env.attestors.blank(),
            env.services.blank(),
            env.attestations.blank(),
            env.tracing.blank(),
            env.kyc.blank(),
            env.sessions.blank(),
            env.quotes.blank(),
            env.cache.blank(),
            env.routing.blank(),
            env.transactions.blank(),
            env.rates.blank(),
            env.health.blank(),
    {
        Ledger {
            clock: LedgerClock { timestamp, sequence },
            auth: Auth { all: false, signers: Vec::new() },
            events: Vec::new(),
            admin_log: Vec::new(),
            access: AccessState {
                initialized: false,
                admin: None,
                pending_admin: None,
                roles: Table::new(),
                capabilities: Table::new(),
                version: None,
                wasm_hash: None,
                schema_version: 0,
                migrations: Vec::new(),
            },
            config: ConfigState {
                cache: None,
                capacity: None,
                compliance: None,
                jwt_max_len: None,
                jwt_skew: None,
                audit_retention: None,
                auto_prune: None,
                eviction_enabled: None,
                eviction_max: None,
                budget_warning: None,
                budget_critical: None,
            },
            attestors: AttestorState {
                registered: Table::new(),
                public_keys: Table::new(),
                revocations: Table::new(),
                profiles: Table::new(),
                proofs: Table::new(),
                count: 0,
                list: Vec::new(),
                sep10_keys: Table::new(),
                old_sep10_keys: Table::new(),
                jtis: Table::new(),
                jti_index: Vec::new(),
            },
            services: ServiceState {
                configured: Table::new(),
                toggled: Table::new(),
                snapshots: Table::new(),
                snapshot_count: 0,
            },
            attestations: AttestationState {
                counter: 0,
                records: Table::new(),
                index: Vec::new(),
                used: Table::new(),
                session_used: Table::new(),
                replays: Table::new(),
                replay_total: 0,
                accepted_total: 0,
            },
            tracing: TracingState {
                request_counter: 0,
                spans: Table::new(),
                roots: Table::new(),
                children: Table::new(),
                requests: Table::new(),
            },
            kyc: KycState {
                records: Table::new(),
                data_hashes: Table::new(),
                latest: Table::new(),
                history: Table::new(),
                history_counts: Table::new(),
                check_types: Table::new(),
            },
            sessions: SessionStore {
                count: 0,
                records: Table::new(),
                operation_counts: Table::new(),
                log_count: 0,
                logs: Table::new(),
                session_logs: Table::new(),
            },
            quotes: QuoteState {
                count: 0,
                records: Table::new(),
                legacy: Table::new(),
                lifecycle: Table::new(),
                index: Vec::new(),
                anchors: Table::new(),
                latest: Table::new(),
                migration_cursor: None,
            },
            cache: CacheState {
                count: 0,
                metadata: Table::new(),
                capabilities: Table::new(),
                tomls: Table::new(),
                refreshes: Table::new(),
                policies: None,
                governance: None,
                proposals: Table::new(),
                proposal_count: 0,
            },
            routing: RoutingState {
                metadata: Table::new(),
                versions: Table::new(),
                history: Table::new(),
                anchors: Vec::new(),
                blacklist: Table::new(),
                blacklist_index: Vec::new(),
                clusters: Table::new(),
                cluster_ids: Vec::new(),
                reputations: Table::new(),
                weights: None,
                policies: Table::new(),
                policy_count: 0,
                profiles: Table::new(),
                active_network: None,
                default_network: None,
            },
            transactions: TransactionStore { records: Table::new(), ids: Vec::new() },
            rates: RateState {
                config: None,
                roles: Table::new(),
                addresses: Table::new(),
                states: Table::new(),
            },
            health: HealthState { metrics: Table::new(), windows: Table::new() },
        }
    }

    /// Takes every address as having authorised the calls that follow.
    pub fn mock_all_auths(&mut self)
        ensures
            *final(self) == (Ledger {
                auth: Auth { all: true, signers: old(self).auth.signers },
                ..*old(self)
            }),
    {
        self.auth.all = true;
    }

    /// Requires that the address has authorised the call.
    pub fn require_auth(&self, a: &Address) -> (r: Result<(), ContractError>)
        ensures
            follows(r, auth_refusal(*self, *a)),
    {
        if self.auth.authorizes(a) {
            Ok(())
        } else {
            Err(ContractError::AuthRequired(*a))
        }
    }

    /// Requires that the admin has authorised the call, and names the admin.
    pub fn require_admin(&self) -> (r: Result<Address, ContractError>)
        ensures
            follows(r, admin_refusal(*self)),
            r is Ok ==> self.access.admin == Some(r->Ok_0),
    {
        match self.access.admin {
            None => Err(ContractError::Code(ErrorCode::NotInitialized)),
            Some(a) => {
                if self.auth.authorizes(&a) {
                    Ok(a)
                } else {
                    Err(ContractError::AuthRequired(a))
                }
            },
        }
    }

    /// Whether the address is the admin or has the role.
    pub fn has_role(&self, a: &Address, role: AdminRole) -> (r: bool)
        ensures
            r == holds_role(*self, *a, role),
    {
        if let Some(admin) = self.access.admin {
            if a.equals(&admin) {
                return true;
            }
        }
        self.is_role_granted(a, role)
    }

    /// Whether the address has been granted the role.
    pub fn is_role_granted(&self, a: &Address, role: AdminRole) -> (r: bool)
        ensures
            r == role_granted(*self, *a, role),
    {
        match self.access.roles.get(&(role, *a)) {
            Some(b) => *b,
            None => false,
        }
    }

    /// Whether the address has been granted the capability.
    pub fn is_capability_granted(&self, a: &Address, cap: AdminCapability) -> (r: bool)
        ensures
            r == capability_granted(*self, *a, cap),
    {
        match self.access.capabilities.get(&(cap, *a)) {
            Some(b) => *b,
            None => false,
        }
    }

    /// Whether the address is the admin or has the capability.
    pub fn has_capability(&self, a: &Address, cap: AdminCapability) -> (r: bool)
        ensures
            r == holds_capability(*self, *a, cap),
    {
        if let Some(admin) = self.access.admin {
            if a.equals(&admin) {
                return true;
            }
        }
        self.is_capability_granted(a, cap)
    }

    /// Whether the address is entrusted with the duty.
    pub fn is_entrusted(&self, duty: Duty, a: &Address) -> (r: bool)
        ensures
            r == entrusted(*self, duty, *a),
    {
        match duty {
            Duty::Upgrade => self.has_capability(a, AdminCapability::UpgradeContract),
            Duty::Migrate => self.has_capability(a, AdminCapability::MigrateSchema),
            Duty::CacheSettings => self.has_capability(a, AdminCapability::SetCacheConfig),
            Duty::Attestors => self.has_role(a, AdminRole::AttestorAdmin) || self.has_capability(
                a,
                AdminCapability::ManageAttestors,
            ),
            Duty::CacheEntries => self.has_role(a, AdminRole::CacheAdmin) || self.has_capability(
                a,
                AdminCapability::ManageCacheEntries,
            ),
            Duty::TokenSettings => self.has_capability(a, AdminCapability::SetJwtConfig),
            Duty::AnchorMetadata => self.has_capability(a, AdminCapability::ManageAnchorMetadata),
        }
    }

    /// Requires that the admin, or one who was granted the role or the
    /// capability of the duty, has signed the call, and names the admin.
    pub fn require_duty(&self, duty: Duty) -> (r: Result<Address, ContractError>)
        ensures
            follows(r, duty_refusal(*self, duty)),
            r is Ok ==> self.access.admin == Some(r->Ok_0),
    {
        let admin = match self.access.admin {
            None => {
                return Err(ContractError::Code(ErrorCode::NotInitialized));
            },
            Some(a) => a,
        };
        let mut i: usize = 0;
        while i < self.auth.signers.len()
            invariant
                0 <= i <= self.auth.signers@.len(),
                self.access.admin == Some(admin),
                forall|j: int| 0 <= j < i ==> !entrusted(*self, duty, #[trigger] self.auth.signers@[j]),
            decreases self.auth.signers@.len() - i,
        {
            if self.is_entrusted(duty, &self.auth.signers[i]) {
                return Ok(admin);
            }
            i = i + 1;
        }
        if self.auth.authorizes(&admin) {
            return Ok(admin);
        }
        match duty {
            Duty::Upgrade | Duty::CacheSettings | Duty::Attestors => Err(
                ContractError::Code(ErrorCode::UnauthorizedAttestor),
            ),
            _ => Err(ContractError::AuthRequired(admin)),
        }
    }

    /// Requires that the caller is entrusted with the duty and has signed the call.
    pub fn require_delegate(&self, caller: &Address, duty: Duty) -> (r: Result<(), ContractError>)
        ensures
            follows(r, delegate_refusal(*self, *caller, duty)),
    {
        if self.access.admin.is_none() {
            return Err(ContractError::Code(ErrorCode::NotInitialized));
        }
        if !self.is_entrusted(duty, caller) {
            return Err(ContractError::Code(ErrorCode::Unauthorized));
        }
        self.require_auth(caller)
    }

    /// Requires the role, or the admin, and that the caller has authorised the
    /// call.
    pub fn require_admin_or_role(&self, caller: &Address, role: AdminRole) -> (r: Result<
        (),
        ContractError,
    >)
        ensures
            follows(r, role_refusal(*self, *caller, role)),
    {
        if self.access.admin.is_none() {
            return Err(ContractError::Code(ErrorCode::NotInitialized));
        }
        if !self.has_role(caller, role) {
            return Err(ContractError::Code(ErrorCode::Unauthorized));
        }
        self.require_auth(caller)
    }

    /// Requires the capability, or the admin, and that the caller has
    /// authorised the call.
    pub fn require_admin_or_capability(&self, caller: &Address, cap: AdminCapability) -> (r: Result<
        (),
        ContractError,
    >)
        ensures
            follows(r, capability_refusal(*self, *caller, cap)),
    {
        if !self.has_capability(caller, cap) {
            return Err(ContractError::Code(ErrorCode::Unauthorized));
        }
        self.require_auth(caller)
    }

    /// Requires the capability, or the admin, of an initialised contract, and
    /// that the caller has authorised the call.
    pub fn require_capability(&self, caller: &Address, cap: AdminCapability) -> (r: Result<
        (),
        ContractError,
    >)
        ensures
            follows(
                r,
                either(
                    refuse_when(self.access.admin is None, ErrorCode::NotInitialized),
                    capability_refusal(*self, *caller, cap),
                ),
            ),
    {
        if self.access.admin.is_none() {
            return Err(ContractError::Code(ErrorCode::NotInitialized));
        }
        self.require_admin_or_capability(caller, cap)
    }

    /// Requires a registered attestor.
    pub fn check_attestor(&self, a: &Address) -> (r: Result<(), ContractError>)
        ensures
            follows(r, attestor_refusal(*self, *a)),
    {
        if self.attestors.registered.has(a) {
            Ok(())
        } else if self.attestors.revocations.has(a) {
            Err(ContractError::Code(ErrorCode::AttestorRevoked))
        } else {
            Err(ContractError::Code(ErrorCode::AttestorNotRegistered))
        }
    }

    /// Announces an event.
    pub fn publish(&mut self, event: Event)
        ensures
            *final(self) == (Ledger { events: final(self).events, ..*old(self) }),
            final(self).events@ == old(self).events@.push(event),
    {
        self.events.push(event);
    }

    /// Notes an administrative action.
    pub fn log_action(
        &mut self,
        actor: Address,
        action: &'static str,
        target: AdminTarget,
        before: &'static str,
        after: &'static str,
    )
        ensures
            *final(self) == (Ledger { admin_log: final(self).admin_log, ..*old(self) }),
            final(self).admin_log@ == old(self).admin_log@.push(
                AdminAction { actor, action, target, before, after: AdminOutcome::Label(after) },
            ),
    {
        self.admin_log.push(
            AdminAction { actor, action, target, before, after: AdminOutcome::Label(after) },
        );
    }
}

} // verus!
