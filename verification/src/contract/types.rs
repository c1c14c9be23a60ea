//! Records, reports and constants of the contract.
use crate::address::Address;
use crate::encoding::{bytes_equal, copy_bytes};
use crate::table::LedgerKey;
use vstd::prelude::*;

verus! {

/// A byte string.
#[derive(Debug, PartialEq, Eq)]
pub struct Bytes {
    pub data: Vec<u8>,
}

impl View for Bytes {
    type V = Seq<u8>;

    open spec fn view(&self) -> Seq<u8> {
        self.data@
    }
}

impl Bytes {
    /// No bytes.
    pub fn new() -> (b: Self)
        ensures
            b@ == Seq::<u8>::empty(),
    {
        Bytes { data: Vec::new() }
    }

    /// The given bytes.
    pub fn from_slice(bytes: &[u8]) -> (b: Self)
        ensures
            b@ == bytes@,
    {
        Bytes { data: copy_bytes(bytes) }
    }

    /// The number of bytes.
    pub fn len(&self) -> (n: usize)
        ensures
            n == self@.len(),
    {
        self.data.len()
    }

    /// Whether the two hold the same bytes.
    pub fn equals(&self, other: &Bytes) -> (r: bool)
        ensures
            r == (self@ == other@),
    {
        bytes_equal(self.data.as_slice(), other.data.as_slice())
    }

    /// A copy.
    pub fn copy(&self) -> (b: Self)
        ensures
            b@ == self@,
    {
        Bytes::from_slice(self.data.as_slice())
    }
}

impl LedgerKey for Bytes {
    fn same(&self, other: &Bytes) -> (r: bool) {
        self.equals(other)
    }
}

/// A session of one initiator.
#[derive(Clone, Copy, Debug, PartialEq, Eq)]
pub struct Session {
    pub session_id: u64,
    pub initiator: Address,
    pub created_at: u64,
    pub nonce: u64,
    pub operation_count: u64,
    pub session_ttl_seconds: u64,
    pub closed: bool,
    /// The lifecycle state by number: 0 created, 1 active, 2 exhausted,
    /// 3 closed, 4 expired.
    pub state: u32,
}

/// A quote of an anchor for one asset pair.
#[derive(Debug, PartialEq, Eq)]
pub struct Quote {
    pub quote_id: u64,
    pub anchor: Address,
    pub base_asset: String,
    pub quote_asset: String,
    pub rate: u64,
    pub fee_percentage: u32,
    pub minimum_amount: u64,
    pub maximum_amount: u64,
    pub valid_until: u64,
    pub schema_version: u32,
    pub routing_reason: Option<String>,
}

/// A copy of an optional text.
pub fn copy_text(s: &Option<String>) -> (r: Option<String>)
    ensures
        r == *s,
{
    match s {
        Some(t) => Some(t.clone()),
        None => None,
    }
}

impl Clone for Quote {
    fn clone(&self) -> (q: Self)
        ensures
            q == *self,
    {
        Quote {
            quote_id: self.quote_id,
            anchor: self.anchor,
            base_asset: self.base_asset.clone(),
            quote_asset: self.quote_asset.clone(),
            rate: self.rate,
            fee_percentage: self.fee_percentage,
            minimum_amount: self.minimum_amount,
            maximum_amount: self.maximum_amount,
            valid_until: self.valid_until,
            schema_version: self.schema_version,
            routing_reason: copy_text(&self.routing_reason),
        }
    }
}

/// Whether a quote was voided by hand.
#[derive(Clone, Copy, Debug, PartialEq, Eq, Structural)]
pub enum QuoteLifecycleState {
    Active,
    Invalidated,
}

/// A quote as stored before routing reasons were recorded.
#[derive(Debug, PartialEq, Eq)]
pub struct QuoteV1 {
    pub quote_id: u64,
    pub anchor: Address,
    pub base_asset: String,
    pub quote_asset: String,
    pub rate: u64,
    pub fee_percentage: u32,
    pub minimum_amount: u64,
    pub maximum_amount: u64,
    pub valid_until: u64,
    pub schema_version: u32,
}

/// One operation within a session.
#[derive(Debug, PartialEq, Eq)]
pub struct OperationContext {
    pub session_id: u64,
    pub operation_index: u64,
    pub operation_type: String,
    pub timestamp: u64,
    pub status: String,
    pub result_data: u64,
}

/// An audit entry.
#[derive(Debug, PartialEq, Eq)]
pub struct AuditLog {
    pub log_id: u64,
    pub session_id: u64,
    pub actor: Address,
    pub operation: OperationContext,
}

impl Clone for AuditLog {
    fn clone(&self) -> (a: Self)
        ensures
            a == *self,
    {
        AuditLog {
            log_id: self.log_id,
            session_id: self.session_id,
            actor: self.actor,
            operation: OperationContext {
                session_id: self.operation.session_id,
                operation_index: self.operation.operation_index,
                operation_type: self.operation.operation_type.clone(),
                timestamp: self.operation.timestamp,
                status: self.operation.status.clone(),
                result_data: self.operation.result_data,
            },
        }
    }
}

/// The identifier of a request.
#[derive(Debug, PartialEq, Eq)]
pub struct RequestId {
    pub id: Bytes,
    pub created_at: u64,
}

/// A root request with the operations performed under it, in order.
#[derive(Debug, PartialEq, Eq)]
pub struct RequestContext {
    pub root_request_id: RequestId,
    pub operation_chain: Vec<String>,
    pub created_at: u64,
}

/// An attestation of an issuer about a subject.
#[derive(Debug, PartialEq, Eq)]
pub struct Attestation {
    pub id: u64,
    pub issuer: Address,
    pub subject: Address,
    pub timestamp: u64,
    pub payload_hash: Bytes,
    pub signature: Bytes,
    pub schema_version: u32,
}

/// Which attestations to list; an absent field does not restrict.
#[derive(Clone, Copy, Debug)]
pub struct AttestationFilter {
    pub issuer: Option<Address>,
    pub subject: Option<Address>,
    pub from_timestamp: Option<u64>,
    pub to_timestamp: Option<u64>,
    pub min_id: Option<u64>,
}

/// One page of attestations.
#[derive(Debug)]
pub struct AttestationPage<'a> {
    pub records: Vec<&'a Attestation>,
    pub next_offset: u64,
    pub total: u64,
}

/// How to order attestations.
#[derive(Clone, Copy, Debug, PartialEq, Eq, Structural)]
pub enum AttestationSortOrder {
    IdAsc,
    IdDesc,
    TimestampAsc,
    TimestampDesc,
}

/// One attestation of a batch.
#[derive(Debug)]
pub struct AttestationInput {
    pub issuer: Address,
    pub subject: Address,
    pub timestamp: u64,
    pub payload_hash: Bytes,
    pub signature: Bytes,
}

/// One span of a trace.
#[derive(Debug, PartialEq, Eq)]
pub struct TracingSpan {
    pub request_id: RequestId,
    pub operation: String,
    pub actor: Address,
    pub started_at: u64,
    pub completed_at: u64,
    pub status: String,
    pub parent_request_id_bytes: Bytes,
    pub span_index: u32,
}

/// The root of a trace and the index of its next span.
#[derive(Debug, PartialEq, Eq)]
pub struct TracingContext {
    pub root_request_id_bytes: Bytes,
    pub next_span_index: u32,
}

/// What is known of an attestor.
#[derive(Debug, PartialEq, Eq)]
pub struct AttestorProfile {
    pub attestor: Address,
    pub endpoint: String,
    pub webhook_url: String,
    pub services: Vec<u32>,
    pub enabled: bool,
    pub updated_at: u64,
}

/// Whether and how a service is retired.
#[derive(Debug, PartialEq, Eq)]
pub struct ServiceRetirementInfo {
    pub service_code: u32,
    pub retired: bool,
    pub retirement_timestamp: Option<u64>,
    pub deprecation_notice: Option<String>,
}

impl Clone for ServiceRetirementInfo {
    fn clone(&self) -> (i: Self)
        ensures
            i == *self,
    {
        ServiceRetirementInfo {
            service_code: self.service_code,
            retired: self.retired,
            retirement_timestamp: self.retirement_timestamp,
            deprecation_notice: copy_text(&self.deprecation_notice),
        }
    }
}

/// The services of an anchor.
#[derive(Debug, PartialEq, Eq)]
pub struct AnchorServices {
    pub anchor: Address,
    pub services: Vec<u32>,
    pub service_capability_version: u32,
    pub service_retirements: Vec<ServiceRetirementInfo>,
}

pub const SERVICE_DEPOSITS: u32 = 1;

pub const SERVICE_WITHDRAWALS: u32 = 2;

pub const SERVICE_QUOTES: u32 = 3;

pub const SERVICE_KYC: u32 = 4;

pub const SERVICE_SEP31: u32 = 5;

/// The version of the service codes that the contract knows.
pub const SERVICE_CAPABILITY_VERSION: u32 = 1;

/// The highest service code that the contract knows.
pub const MAX_KNOWN_SERVICE_CODE: u32 = 5;

/// The circumstances of a revocation.
#[derive(Debug, PartialEq, Eq)]
pub struct AttestorRevocationRecord {
    pub attestor: Address,
    pub revoked_at: u64,
    pub revoked_by: Address,
    pub reason: String,
    pub public_key: [u8; 32],
    pub reactivated: bool,
    pub reactivated_at: u64,
}

impl Clone for AttestorRevocationRecord {
    fn clone(&self) -> (c: Self)
        ensures
            c == *self,
    {
        AttestorRevocationRecord {
            attestor: self.attestor,
            revoked_at: self.revoked_at,
            revoked_by: self.revoked_by,
            reason: self.reason.clone(),
            public_key: self.public_key,
            reactivated: self.reactivated,
            reactivated_at: self.reactivated_at,
        }
    }
}

/// One privileged operation that can be delegated.
#[derive(Clone, Copy, Debug, PartialEq, Eq, Structural)]
pub enum AdminCapability {
    UpgradeContract,
    MigrateSchema,
    SetCacheConfig,
    ManageAttestors,
    ManageKyc,
    ManageCacheEntries,
    ToggleServices,
    SetRateLimits,
    SetJwtConfig,
    ManageAnchorMetadata,
}

/// A group of privileged operations that can be delegated.
#[derive(Clone, Copy, Debug, PartialEq, Eq, Structural)]
pub enum AdminRole {
    KycAdmin,
    AttestorAdmin,
    CacheAdmin,
}

impl View for AdminCapability {
    type V = AdminCapability;

    open spec fn view(&self) -> AdminCapability {
        *self
    }
}

impl LedgerKey for AdminCapability {
    fn same(&self, other: &AdminCapability) -> (r: bool) {
        *self == *other
    }
}

impl View for AdminRole {
    type V = AdminRole;

    open spec fn view(&self) -> AdminRole {
        *self
    }
}

impl LedgerKey for AdminRole {
    fn same(&self, other: &AdminRole) -> (r: bool) {
        *self == *other
    }
}

/// A service of an anchor.
#[derive(Clone, Copy, Debug, PartialEq, Eq, Structural)]
pub enum ServiceType {
    Deposits,
    Withdrawals,
    Quotes,
    KYC,
    Sep31,
}

impl ServiceType {
    /// The code of the service.
    pub fn as_u32(&self) -> (code: u32)
        ensures
            code == (match *self {
                ServiceType::Deposits => SERVICE_DEPOSITS,
                ServiceType::Withdrawals => SERVICE_WITHDRAWALS,
                ServiceType::Quotes => SERVICE_QUOTES,
                ServiceType::KYC => SERVICE_KYC,
                ServiceType::Sep31 => SERVICE_SEP31,
            }),
    {
        match self {
            ServiceType::Deposits => SERVICE_DEPOSITS,
            ServiceType::Withdrawals => SERVICE_WITHDRAWALS,
            ServiceType::Quotes => SERVICE_QUOTES,
            ServiceType::KYC => SERVICE_KYC,
            ServiceType::Sep31 => SERVICE_SEP31,
        }
    }
}

/// What routing knows of an anchor.
#[derive(Clone, Copy, Debug, PartialEq, Eq)]
pub struct RoutingAnchorMeta {
    pub anchor: Address,
    pub reputation_score: u32,
    pub average_settlement_time: u64,
    pub liquidity_score: u32,
    pub uptime_percentage: u32,
    pub total_volume: u64,
    pub is_active: bool,
}

/// The history of an anchor, as counters.
#[derive(Clone, Copy, Debug, PartialEq, Eq)]
pub struct AnchorReputationRecord {
    pub anchor: Address,
    pub total_routed: u64,
    pub successful_routed: u64,
    pub operator_quality_score: u32,
    pub uptime_ticks: u64,
    pub total_ticks: u64,
    pub updated_at: u64,
}

/// Weights of the parts of a reputation score, in thousandths.
#[derive(Clone, Copy, Debug, PartialEq, Eq, Structural)]
pub struct ReputationWeights {
    pub success_rate_weight: u32,
    pub uptime_weight: u32,
    pub operator_quality_weight: u32,
}

impl ReputationWeights {
    /// Whether no weight is zero and the weights add up to 1000.
    pub open spec fn valid(self) -> bool {
        &&& self.success_rate_weight > 0
        &&& self.uptime_weight > 0
        &&& self.operator_quality_weight > 0
        &&& self.success_rate_weight + self.uptime_weight + self.operator_quality_weight == 1000
    }

    /// The weights in use when none have been set.
    pub fn default_weights() -> (w: Self)
        ensures
            w == (ReputationWeights {
                success_rate_weight: 400,
                uptime_weight: 350,
                operator_quality_weight: 250,
            }),
            w.valid(),
    {
        ReputationWeights {
            success_rate_weight: 400,
            uptime_weight: 350,
            operator_quality_weight: 250,
        }
    }

    /// Whether the weights can be used.
    pub fn is_valid(&self) -> (r: bool)
        ensures
            r == self.valid(),
    {
        if self.success_rate_weight == 0 || self.uptime_weight == 0 || self.operator_quality_weight
            == 0 {
            return false;
        }
        match self.success_rate_weight.checked_add(self.uptime_weight) {
            None => false,
            Some(s) => match s.checked_add(self.operator_quality_weight) {
                None => false,
                Some(t) => t == 1000,
            },
        }
    }
}

/// A span of the day, in seconds since midnight. It may wrap around midnight;
/// equal ends mean the whole day.
#[derive(Clone, Copy, Debug, PartialEq, Eq, Structural)]
pub struct RoutingTimeWindow {
    pub window_start_secs: u32,
    pub window_end_secs: u32,
}

impl RoutingTimeWindow {
    /// Whether the window contains a time of day.
    pub open spec fn contains(self, t: u32) -> bool {
        if self.window_start_secs == self.window_end_secs {
            true
        } else if self.window_start_secs < self.window_end_secs {
            self.window_start_secs <= t < self.window_end_secs
        } else {
            self.window_start_secs <= t || t < self.window_end_secs
        }
    }

    /// Whether the window contains a time of day.
    pub fn is_active(&self, time_of_day_secs: u32) -> (r: bool)
        ensures
            r == self.contains(time_of_day_secs),
    {
        if self.window_start_secs == self.window_end_secs {
            return true;
        }
        if self.window_start_secs < self.window_end_secs {
            time_of_day_secs >= self.window_start_secs && time_of_day_secs < self.window_end_secs
        } else {
            time_of_day_secs >= self.window_start_secs || time_of_day_secs < self.window_end_secs
        }
    }
}

/// A routing strategy for a span of the day.
#[derive(Debug, PartialEq, Eq)]
pub struct TimedRoutingPolicy {
    pub policy_id: u64,
    pub name: String,
    pub strategy_name: String,
    pub window: RoutingTimeWindow,
    pub priority: u32,
    pub enabled: bool,
}

impl Clone for TimedRoutingPolicy {
    fn clone(&self) -> (p: Self)
        ensures
            p == *self,
    {
        TimedRoutingPolicy {
            policy_id: self.policy_id,
            name: self.name.clone(),
            strategy_name: self.strategy_name.clone(),
            window: self.window,
            priority: self.priority,
            enabled: self.enabled,
        }
    }
}

/// Routing defaults for one network.
#[derive(Debug, PartialEq, Eq)]
pub struct NetworkRoutingProfile {
    pub network_name: String,
    pub default_strategy: String,
    pub fee_weight: u32,
    pub speed_weight: u32,
    pub reputation_weight: u32,
    pub min_reputation: u32,
    pub is_default: bool,
}

/// What is to be routed.
#[derive(Debug)]
pub struct RoutingRequest {
    pub base_asset: String,
    pub quote_asset: String,
    pub amount: u64,
    pub operation_type: u32,
}

/// How it is to be routed.
#[derive(Debug)]
pub struct RoutingOptions {
    pub request: RoutingRequest,
    pub strategy: Vec<String>,
    pub min_reputation: u32,
    pub max_anchors: u32,
    pub require_kyc: bool,
    pub require_compliance: bool,
    pub subject: Address,
    pub fee_weight: u32,
    pub speed_weight: u32,
    pub reputation_weight: u32,
}

/// The score that compliance checks must reach.
#[derive(Clone, Copy, Debug, PartialEq, Eq)]
pub struct CompliancePolicy {
    pub minimum_score: Option<u32>,
}

impl CompliancePolicy {
    /// No minimum.
    pub fn default_policy() -> (p: Self)
        ensures
            p == (CompliancePolicy { minimum_score: None }),
    {
        CompliancePolicy { minimum_score: None }
    }
}

/// Where a subject stands with its identity check.
#[derive(Clone, Copy, Debug, PartialEq, Eq, Structural)]
pub enum KycStatus {
    NotSubmitted,
    Pending,
    Approved,
    Rejected,
    Expired,
    Reopened,
}

/// The result of one compliance check.
#[derive(Debug, PartialEq, Eq)]
pub struct ComplianceCheck {
    pub subject: Address,
    pub check_type: String,
    pub result: u32,
    pub score: Option<u32>,
    pub timestamp: u64,
}

impl Clone for ComplianceCheck {
    fn clone(&self) -> (c: Self)
        ensures
            c == *self,
    {
        ComplianceCheck {
            subject: self.subject,
            check_type: self.check_type.clone(),
            result: self.result,
            score: self.score,
            timestamp: self.timestamp,
        }
    }
}

/// The identity check of a subject.
#[derive(Debug, PartialEq, Eq)]
pub struct KycRecord {
    pub subject: Address,
    pub status: u32,
    pub submitted_at: u64,
    pub reviewed_at: Option<u64>,
    pub expiry: Option<u64>,
    pub rejection_reason_hash: Option<Bytes>,
    pub schema_version: u32,
}

/// Why an anchor is excluded.
#[derive(Debug, PartialEq, Eq)]
pub struct AnchorBlacklistEntry {
    pub anchor: Address,
    pub reason: String,
    pub blacklisted_at: u64,
}

/// A named group of anchors.
#[derive(Debug, PartialEq, Eq)]
pub struct AnchorCluster {
    pub cluster_id: String,
    pub name: String,
    pub anchors: Vec<Address>,
    pub created_at: u64,
}

/// The health of the contract.
#[derive(Clone, Copy, Debug, PartialEq, Eq, Structural)]
pub enum HealthStatus {
    Healthy,
    Degraded,
    Unavailable,
}

/// How fresh the cached metadata of an anchor is.
#[derive(Clone, Copy, Debug, PartialEq, Eq)]
pub struct MetadataFreshnessReport {
    pub anchor: Address,
    pub state: MetadataCacheState,
    pub age_seconds: u64,
    pub needs_refresh: bool,
    pub freshness_score: u32,
}

/// The rate limit of an attestor, as it applies now.
#[derive(Clone, Copy, Debug, PartialEq, Eq)]
pub struct RateLimiterHealth {
    pub attestor: Address,
    pub submission_count: u32,
    pub max_submissions: u32,
    pub window_length: u32,
    pub window_start_ledger: u32,
    pub is_throttled: bool,
}

/// Metadata of an anchor as fetched.
#[derive(Clone, Copy, Debug, PartialEq, Eq)]
pub struct AnchorMetadata {
    pub anchor: Address,
    pub reputation_score: u32,
    pub liquidity_score: u32,
    pub uptime_percentage: u32,
    pub total_volume: u64,
    pub average_settlement_time: u64,
    pub is_active: bool,
}

impl AnchorMetadata {
    /// Whether the two are the same in every field.
    pub fn equals(&self, other: &AnchorMetadata) -> (r: bool)
        ensures
            r == (*self == *other),
    {
        self.anchor.equals(&other.anchor) && self.reputation_score == other.reputation_score
            && self.liquidity_score == other.liquidity_score && self.uptime_percentage
            == other.uptime_percentage && self.total_volume == other.total_volume
            && self.average_settlement_time == other.average_settlement_time && self.is_active
            == other.is_active
    }
}

/// Cached metadata.
#[derive(Clone, Copy, Debug, PartialEq, Eq)]
pub struct MetadataCache {
    pub metadata: AnchorMetadata,
    pub cached_at: u64,
    pub ttl_seconds: u64,
    pub stale_ttl_seconds: u64,
    pub needs_refresh: bool,
}

/// Where a metadata entry stands in its life.
#[derive(Clone, Copy, Debug, PartialEq, Eq, Structural)]
pub enum MetadataCacheState {
    Missing,
    Fresh,
    Stale,
    Expired,
}

/// Cached capabilities.
#[derive(Debug, PartialEq, Eq)]
pub struct CapabilitiesCache {
    pub toml_url: String,
    pub capabilities: String,
    pub cached_at: u64,
    pub ttl_seconds: u64,
}

/// The outcome of a refresh.
#[derive(Clone, Copy, Debug, PartialEq, Eq, Structural)]
pub enum RefreshStatus {
    Success,
    Failed,
}

/// What happened at the last refresh.
#[derive(Debug, PartialEq, Eq)]
pub struct RefreshDiagnostic {
    pub operation: String,
    pub status: RefreshStatus,
    pub attempted_at: u64,
    pub had_cached_entry: bool,
    pub detail: String,
}

/// An asset of an anchor, with its fees and limits.
#[derive(Debug, PartialEq, Eq)]
pub struct AssetInfo {
    pub code: String,
    pub issuer: String,
    pub deposit_enabled: bool,
    pub withdrawal_enabled: bool,
    pub deposit_fee_fixed: u64,
    pub deposit_fee_percent: u32,
    pub withdrawal_fee_fixed: u64,
    pub withdrawal_fee_percent: u32,
    pub deposit_min_amount: u64,
    pub deposit_max_amount: u64,
    pub withdrawal_min_amount: u64,
    pub withdrawal_max_amount: u64,
}

/// The published information of an anchor.
#[derive(Debug, PartialEq, Eq)]
pub struct StellarToml {
    pub version: String,
    pub network_passphrase: String,
    pub accounts: Vec<String>,
    pub signing_key: String,
    pub currencies: Vec<AssetInfo>,
    pub transfer_server: String,
    pub transfer_server_sep0024: String,
    pub kyc_server: String,
    pub web_auth_endpoint: String,
    pub direct_payment_server: String,
}

/// Cached published information.
#[derive(Debug, PartialEq, Eq)]
pub struct CachedToml {
    pub toml: StellarToml,
    pub cached_at: u64,
    pub ttl_seconds: u64,
    pub source_uri: String,
    pub last_refreshed_at: u64,
}

/// Where cached published information came from.
#[derive(Debug, PartialEq, Eq)]
pub struct AnchorTomlProvenance {
    pub anchor: Address,
    pub source_uri: String,
    pub cached_at: u64,
    pub last_refreshed_at: u64,
    pub ttl_seconds: u64,
    pub age_seconds: u64,
}

/// The shortest lifetime of a temporary entry, in ledgers.
pub const MIN_TEMP_TTL: u32 = 15;

/// Default lifetimes of cache entries.
#[derive(Clone, Copy, Debug, PartialEq, Eq, Structural)]
pub struct CacheConfig {
    pub metadata_ttl_seconds: u64,
    pub capabilities_ttl_seconds: u64,
    pub swr_ttl_seconds: u64,
}

impl CacheConfig {
    /// One hour for metadata, six for capabilities, five minutes of grace.
    pub fn default_config() -> (c: Self)
        ensures
            c == (CacheConfig {
                metadata_ttl_seconds: 3_600,
                capabilities_ttl_seconds: 21_600,
                swr_ttl_seconds: 300,
            }),
    {
        CacheConfig {
            metadata_ttl_seconds: 3_600,
            capabilities_ttl_seconds: 21_600,
            swr_ttl_seconds: 300,
        }
    }
}

/// How many attestors and cache entries there may be.
#[derive(Clone, Copy, Debug, PartialEq, Eq, Structural)]
pub struct CapacityConfig {
    pub max_attestors: u64,
    pub max_cache_entries: u64,
}

impl CapacityConfig {
    /// A thousand attestors, ten thousand cache entries.
    pub fn default_config() -> (c: Self)
        ensures
            c == (CapacityConfig { max_attestors: 1000, max_cache_entries: 10000 }),
    {
        CapacityConfig { max_attestors: 1000, max_cache_entries: 10000 }
    }
}

/// Which services of an anchor can be used.
#[derive(Clone, Copy, Debug, PartialEq, Eq)]
pub struct AnchorReadinessReport {
    pub anchor: Address,
    pub is_registered: bool,
    pub deposit_ready: bool,
    pub withdrawal_ready: bool,
    pub quote_ready: bool,
    pub kyc_ready: bool,
    pub checked_at: u64,
}

/// The rate limit of an attestor, as stored.
#[derive(Clone, Copy, Debug, PartialEq, Eq)]
pub struct RateLimiterDiagnostics {
    pub attestor: Address,
    pub submission_count: u32,
    pub window_start_ledger: u32,
    pub max_submissions: u32,
    pub window_length: u32,
    pub is_at_limit: bool,
    pub checked_at: u64,
}

/// The cache entries of an anchor.
#[derive(Clone, Copy, Debug, PartialEq, Eq)]
pub struct CacheDiagnostics {
    pub anchor: Address,
    pub metadata_cached: bool,
    pub metadata_age_seconds: u64,
    pub metadata_ttl_seconds: u64,
    pub capabilities_cached: bool,
    pub capabilities_age_seconds: u64,
    pub capabilities_ttl_seconds: u64,
    pub checked_at: u64,
}

/// How many sessions there have been.
#[derive(Clone, Copy, Debug, PartialEq, Eq, Structural)]
pub struct SessionDiagnostics {
    pub total_sessions_created: u64,
    pub checked_at: u64,
}

/// The counters of the contract.
#[derive(Clone, Copy, Debug, PartialEq, Eq, Structural)]
pub struct ContractDiagnostics {
    pub is_initialized: bool,
    pub total_attestations: u64,
    pub total_quotes: u64,
    pub total_sessions: u64,
    pub rate_limit_max_submissions: u32,
    pub rate_limit_window_length: u32,
    pub checked_at: u64,
}

/// How calls to an anchor have gone.
#[derive(Clone, Copy, Debug, PartialEq, Eq)]
pub struct AnchorHealthMetrics {
    pub anchor: Address,
    pub success_count: u64,
    pub failure_count: u64,
    pub total_calls: u64,
    pub uptime_bps: u32,
    pub last_event_at: u64,
}

/// Whether health is getting better or worse.
#[derive(Clone, Copy, Debug, PartialEq, Eq, Structural)]
pub enum HealthTrendDirection {
    Improving,
    Stable,
    Degrading,
}

/// What was observed of an anchor in one span of time.
#[derive(Clone, Copy, Debug, PartialEq, Eq, Structural)]
pub struct AnchorHealthWindow {
    pub started_at: u64,
    pub ended_at: u64,
    pub success_count: u64,
    pub failure_count: u64,
    pub p50_latency_ms_x10: u64,
    pub routing_attempt_count: u64,
    pub routing_failure_count: u64,
    pub recovery_time_seconds: u64,
}

/// The health of an anchor, in basis points.
#[derive(Clone, Copy, Debug, PartialEq, Eq)]
pub struct AnchorHealthScore {
    pub anchor: Address,
    pub composite_bps: u32,
    pub success_rate_bps: u32,
    pub latency_bps: u32,
    pub routing_bps: u32,
    pub recovery_bps: u32,
    pub trend: HealthTrendDirection,
    pub previous_composite_bps: u32,
    pub scored_at: u64,
    pub window_count: u32,
}

/// A proof that an anchor controls an endpoint.
#[derive(Debug, PartialEq, Eq)]
pub struct AnchorProofRecord {
    pub anchor: Address,
    pub endpoint: String,
    pub proof_hash: [u8; 32],
    pub registered_at: u64,
    pub verified: bool,
}

impl Clone for AnchorProofRecord {
    fn clone(&self) -> (c: Self)
        ensures
            c == *self,
    {
        AnchorProofRecord {
            anchor: self.anchor,
            endpoint: self.endpoint.clone(),
            proof_hash: self.proof_hash,
            registered_at: self.registered_at,
            verified: self.verified,
        }
    }
}

/// The first schema of stored records.
pub const SCHEMA_V1: u32 = 1;

/// The schema of quotes with a routing reason.
pub const SCHEMA_V2: u32 = 2;

pub const SEP_6: u32 = 6;

pub const SEP_10: u32 = 10;

pub const SEP_24: u32 = 24;

pub const SEP_31: u32 = 31;

pub const SEP_38: u32 = 38;

/// Which ecosystem proposals are supported.
#[derive(Clone, Copy, Debug, PartialEq, Eq, Structural)]
pub struct SepFeatureFlags {
    pub sep6: bool,
    pub sep10: bool,
    pub sep24: bool,
    pub sep31: bool,
    pub sep38: bool,
}

/// How many transactions stand where.
#[derive(Clone, Copy, Debug, PartialEq, Eq, Structural)]
pub struct TransactionStatusSummary {
    pub pending_count: u64,
    pub in_progress_count: u64,
    pub completed_count: u64,
    pub failed_count: u64,
    pub total_count: u64,
}

/// One version of the metadata of an anchor.
#[derive(Clone, Copy, Debug, PartialEq, Eq, Structural)]
pub struct AnchorMetadataVersion {
    pub version: u32,
    pub updated_at: u64,
    pub reputation_score: u32,
    pub average_settlement_time: u64,
    pub liquidity_score: u32,
    pub uptime_percentage: u32,
    pub total_volume: u64,
    pub is_active: bool,
}

/// The version of the contract code.
#[derive(Clone, Copy, Debug, PartialEq, Eq, Structural)]
pub struct ContractVersion {
    pub major: u32,
    pub minor: u32,
    pub patch: u32,
    pub upgraded_at: u64,
}

impl ContractVersion {
    /// The next patch version, dated.
    pub fn bump_patch(self, upgraded_at: u64) -> (v: Self)
        requires
            self.patch < u32::MAX,
        ensures
            v == (ContractVersion {
                major: self.major,
                minor: self.minor,
                patch: (self.patch + 1) as u32,
                upgraded_at,
            }),
    {
        ContractVersion {
            major: self.major,
            minor: self.minor,
            patch: self.patch + 1,
            upgraded_at,
        }
    }
}

/// The lifetime of persistent entries, in ledgers.
pub const PERSISTENT_TTL: u32 = 1_555_200;

/// The lifetime of trace entries, in ledgers.
pub const SPAN_TTL: u32 = 1_555_200;

/// The lifetime of the instance, in ledgers.
pub const INSTANCE_TTL: u32 = 518_400;

/// The lifetime of the record of a transaction that has ended, in ledgers.
pub const ENDED_TRANSACTION_TTL: u32 = 518_400;

/// The estimated size of one transaction record, in bytes.
pub const APPROX_TXSTATE_RECORD_BYTES: u64 = 256;

pub const DEFAULT_TXBUDGET_WARNING_BYTES: u64 = 500_000;

pub const DEFAULT_TXBUDGET_CRITICAL_BYTES: u64 = 1_000_000;

/// The lifetime of a session that names none, in seconds.
pub const DEFAULT_SESSION_TTL: u64 = 3600;

/// Most attestations in one batch.
pub const MAX_BATCH_SIZE: usize = 25;

/// How many submissions one attestation of a batch counts as.
pub const BATCH_ATTESTATION_RATE_MULTIPLIER: u32 = 5;

/// Most operations in one session.
pub const MAX_OPS_PER_SESSION: u64 = 100;

/// The lifetime of replay markers, in ledgers.
pub const REPLAY_TTL: u32 = 120_960;

/// Longest payload hash, in bytes.
pub const MAX_PAYLOAD_HASH_BYTES: u32 = 32;

pub const MIN_JWT_MAX_LEN: u32 = 2048;

pub const MAX_JWT_MAX_LEN: u32 = 16384;

/// The longest token that is accepted when nothing is configured.
pub const MAX_JWT_LEN: u32 = 2048;

/// The clock tolerance when nothing is configured, in seconds.
pub const DEFAULT_CLOCK_SKEW: u64 = 60;

/// How long an approval lasts, in seconds.
pub const KYC_EXPIRY_SECONDS: u64 = 2_592_000;

/// How far ahead a quote may reach, in seconds.
pub const MAX_QUOTE_VALIDITY_SECONDS: u64 = 2_592_000;

/// Most days for which audit entries may be kept.
pub const MAX_AUDIT_LOG_RETENTION_DAYS: u64 = 3650;

/// Most health observations kept per anchor.
pub const MAX_HEALTH_WINDOWS: usize = 24;

} // verus!
