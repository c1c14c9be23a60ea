//! Governance of the caches: entry policies, and proposals by which attestors
//! clear the cached capabilities of an anchor.
use crate::address::{strkey_text, Address};
use crate::arith::{capped_product, mul_capped};
use crate::contract::ledger::{CacheState, Ledger};
use crate::errors::{AnchorKitError, ErrorCode};
use crate::structured_log::events;
use crate::structured_log::{FieldValue, FieldView, LogLevel, RecordView, StructuredLogger};
use vstd::prelude::*;
use vstd::string::*;

verus! {

/// Endorsements that a proposal needs unless configured otherwise.
pub const DEFAULT_QUORUM: u32 = 3;

/// Ledgers for which a proposal stays open unless configured otherwise.
pub const DEFAULT_EXPIRY_LEDGERS: u32 = 17_280;

pub const METADATA_MIN_TTL_SECONDS: u64 = 60;

pub const METADATA_MAX_TTL_SECONDS: u64 = 86_400;

pub const METADATA_REFRESH_THRESHOLD_PCT: u32 = 80;

pub const CAPABILITIES_MIN_TTL_SECONDS: u64 = 300;

pub const CAPABILITIES_MAX_TTL_SECONDS: u64 = 604_800;

pub const CAPABILITIES_REFRESH_THRESHOLD_PCT: u32 = 75;

pub const OTHER_MIN_TTL_SECONDS: u64 = 30;

pub const OTHER_MAX_TTL_SECONDS: u64 = 43_200;

pub const OTHER_REFRESH_THRESHOLD_PCT: u32 = 70;

/// What a cache entry holds.
#[derive(Clone, Copy, Debug, PartialEq, Eq, Structural)]
pub enum CacheEntryType {
    Metadata,
    Capabilities,
    Other,
}

/// How entries of one kind are created, refreshed and dropped.
#[derive(Clone, Copy, Debug, PartialEq, Eq, Structural)]
pub struct CachePolicy {
    pub min_ttl_seconds: u64,
    pub max_ttl_seconds: u64,
    pub refresh_threshold_pct: u32,
    pub allow_forced_invalidation: bool,
}

/// The fault of a policy, in words.
pub open spec fn policy_fault(p: CachePolicy) -> Option<Seq<char>> {
    if p.min_ttl_seconds == 0 {
        Some("min_ttl_seconds must be greater than zero"@)
    } else if p.min_ttl_seconds >= p.max_ttl_seconds {
        Some("min_ttl_seconds must be less than max_ttl_seconds"@)
    } else if p.refresh_threshold_pct == 0 || p.refresh_threshold_pct >= 100 {
        Some("refresh_threshold_pct must be in range [1, 99]"@)
    } else {
        None
    }
}

/// A result that is a validation error exactly when there is a fault.
pub open spec fn faults<T>(r: Result<T, AnchorKitError>, fault: Option<Seq<char>>) -> bool {
    match fault {
        Some(words) => r is Err && r->Err_0.is_validation(words),
        None => r is Ok,
    }
}

impl CachePolicy {
    /// The lifetime that an entry gets when `requested` is asked for: zero asks
    /// for the middle of the range, anything else is moved into the range.
    pub open spec fn clamped(self, requested: u64) -> int {
        if requested == 0 {
            let room = if self.max_ttl_seconds >= self.min_ttl_seconds {
                self.max_ttl_seconds - self.min_ttl_seconds
            } else {
                0
            };
            self.min_ttl_seconds + room / 2
        } else if requested > self.min_ttl_seconds && requested > self.max_ttl_seconds {
            self.max_ttl_seconds as int
        } else if self.min_ttl_seconds > requested {
            if self.min_ttl_seconds > self.max_ttl_seconds {
                self.max_ttl_seconds as int
            } else {
                self.min_ttl_seconds as int
            }
        } else {
            if requested > self.max_ttl_seconds {
                self.max_ttl_seconds as int
            } else {
                requested as int
            }
        }
    }

    /// The age from which an entry is to be refreshed.
    pub open spec fn refresh_age(self, ttl: u64) -> int {
        capped_product(ttl, self.refresh_threshold_pct as u64) as int / 100
    }

    /// The policy of anchor metadata.
    pub fn default_metadata() -> (p: Self)
        ensures
            p == (CachePolicy {
                min_ttl_seconds: METADATA_MIN_TTL_SECONDS,
                max_ttl_seconds: METADATA_MAX_TTL_SECONDS,
                refresh_threshold_pct: METADATA_REFRESH_THRESHOLD_PCT,
                allow_forced_invalidation: true,
            }),
            policy_fault(p) is None,
    {
        CachePolicy {
            min_ttl_seconds: METADATA_MIN_TTL_SECONDS,
            max_ttl_seconds: METADATA_MAX_TTL_SECONDS,
            refresh_threshold_pct: METADATA_REFRESH_THRESHOLD_PCT,
            allow_forced_invalidation: true,
        }
    }

    /// The policy of capabilities.
    pub fn default_capabilities() -> (p: Self)
        ensures
            p == (CachePolicy {
                min_ttl_seconds: CAPABILITIES_MIN_TTL_SECONDS,
                max_ttl_seconds: CAPABILITIES_MAX_TTL_SECONDS,
                refresh_threshold_pct: CAPABILITIES_REFRESH_THRESHOLD_PCT,
                allow_forced_invalidation: true,
            }),
            policy_fault(p) is None,
    {
        CachePolicy {
            min_ttl_seconds: CAPABILITIES_MIN_TTL_SECONDS,
            max_ttl_seconds: CAPABILITIES_MAX_TTL_SECONDS,
            refresh_threshold_pct: CAPABILITIES_REFRESH_THRESHOLD_PCT,
            allow_forced_invalidation: true,
        }
    }

    /// The policy of every other entry.
    pub fn default_other() -> (p: Self)
        ensures
            p == (CachePolicy {
                min_ttl_seconds: OTHER_MIN_TTL_SECONDS,
                max_ttl_seconds: OTHER_MAX_TTL_SECONDS,
                refresh_threshold_pct: OTHER_REFRESH_THRESHOLD_PCT,
                allow_forced_invalidation: false,
            }),
            policy_fault(p) is None,
    {
        CachePolicy {
            min_ttl_seconds: OTHER_MIN_TTL_SECONDS,
            max_ttl_seconds: OTHER_MAX_TTL_SECONDS,
            refresh_threshold_pct: OTHER_REFRESH_THRESHOLD_PCT,
            allow_forced_invalidation: false,
        }
    }

    /// The policy that an entry type has unless configured otherwise.
    pub fn default_for(entry_type: CacheEntryType) -> (p: Self)
        ensures
            p == default_policies().of_type(entry_type),
    {
        match entry_type {
            CacheEntryType::Metadata => Self::default_metadata(),
            CacheEntryType::Capabilities => Self::default_capabilities(),
            CacheEntryType::Other => Self::default_other(),
        }
    }

    /// Refuses a policy with a fault.
    pub fn validate(&self) -> (r: Result<(), AnchorKitError>)
        ensures
            faults(r, policy_fault(*self)),
    {
        if self.min_ttl_seconds == 0 {
            return Err(
                AnchorKitError::validation_error("min_ttl_seconds must be greater than zero"),
            );
        }
        if self.min_ttl_seconds >= self.max_ttl_seconds {
            return Err(
                AnchorKitError::validation_error(
                    "min_ttl_seconds must be less than max_ttl_seconds",
                ),
            );
        }
        if self.refresh_threshold_pct == 0 || self.refresh_threshold_pct >= 100 {
            return Err(
                AnchorKitError::validation_error("refresh_threshold_pct must be in range [1, 99]"),
            );
        }
        Ok(())
    }

    /// The lifetime that an entry gets when `requested_ttl` is asked for.
    pub fn clamp_ttl(&self, requested_ttl: u64) -> (t: u64)
        ensures
            t == self.clamped(requested_ttl),
    {
        if requested_ttl == 0 {
            return self.min_ttl_seconds.saturating_add(
                self.max_ttl_seconds.saturating_sub(self.min_ttl_seconds) / 2,
            );
        }
        let raised: u64 = if requested_ttl > self.min_ttl_seconds {
            requested_ttl
        } else {
            self.min_ttl_seconds
        };
        if raised > self.max_ttl_seconds {
            self.max_ttl_seconds
        } else {
            raised
        }
    }

    /// Whether an entry of this age is to be refreshed.
    pub fn needs_refresh(&self, age_seconds: u64, ttl_seconds: u64) -> (r: bool)
        ensures
            r == (age_seconds >= self.refresh_age(ttl_seconds)),
    {
        let threshold: u64 = mul_capped(ttl_seconds, self.refresh_threshold_pct as u64) / 100;
        age_seconds >= threshold
    }

    /// Whether an entry of this age has run out.
    pub fn is_expired(&self, age_seconds: u64, ttl_seconds: u64) -> (r: bool)
        ensures
            r == (age_seconds >= ttl_seconds),
    {
        age_seconds >= ttl_seconds
    }
}

/// A policy for each entry type.
#[derive(Clone, Copy, Debug, PartialEq, Eq, Structural)]
pub struct CachePolicySet {
    pub metadata: CachePolicy,
    pub capabilities: CachePolicy,
    pub other: CachePolicy,
}

/// The policies that hold unless configured otherwise.
pub open spec fn default_policies() -> CachePolicySet {
    CachePolicySet {
        metadata: CachePolicy {
            min_ttl_seconds: METADATA_MIN_TTL_SECONDS,
            max_ttl_seconds: METADATA_MAX_TTL_SECONDS,
            refresh_threshold_pct: METADATA_REFRESH_THRESHOLD_PCT,
            allow_forced_invalidation: true,
        },
        capabilities: CachePolicy {
            min_ttl_seconds: CAPABILITIES_MIN_TTL_SECONDS,
            max_ttl_seconds: CAPABILITIES_MAX_TTL_SECONDS,
            refresh_threshold_pct: CAPABILITIES_REFRESH_THRESHOLD_PCT,
            allow_forced_invalidation: true,
        },
        other: CachePolicy {
            min_ttl_seconds: OTHER_MIN_TTL_SECONDS,
            max_ttl_seconds: OTHER_MAX_TTL_SECONDS,
            refresh_threshold_pct: OTHER_REFRESH_THRESHOLD_PCT,
            allow_forced_invalidation: false,
        },
    }
}

/// The first fault among the policies of a set.
pub open spec fn set_fault(s: CachePolicySet) -> Option<Seq<char>> {
    if policy_fault(s.metadata) is Some {
        policy_fault(s.metadata)
    } else if policy_fault(s.capabilities) is Some {
        policy_fault(s.capabilities)
    } else {
        policy_fault(s.other)
    }
}

impl CachePolicySet {
    /// The policy of an entry type.
    pub open spec fn of_type(self, entry_type: CacheEntryType) -> CachePolicy {
        match entry_type {
            CacheEntryType::Metadata => self.metadata,
            CacheEntryType::Capabilities => self.capabilities,
            CacheEntryType::Other => self.other,
        }
    }

    /// The policies that hold unless configured otherwise.
    pub fn default_set() -> (s: Self)
        ensures
            s == default_policies(),
            set_fault(s) is None,
    {
        CachePolicySet {
            metadata: CachePolicy::default_metadata(),
            capabilities: CachePolicy::default_capabilities(),
            other: CachePolicy::default_other(),
        }
    }

    /// The policy of an entry type.
    pub fn for_type(&self, entry_type: CacheEntryType) -> (p: &CachePolicy)
        ensures
            *p == self.of_type(entry_type),
    {
        match entry_type {
            CacheEntryType::Metadata => &self.metadata,
            CacheEntryType::Capabilities => &self.capabilities,
            CacheEntryType::Other => &self.other,
        }
    }

    /// Refuses a set with a faulty policy, naming the first fault.
    pub fn validate(&self) -> (r: Result<(), AnchorKitError>)
        ensures
            faults(r, set_fault(*self)),
    {
        match self.metadata.validate() {
            Err(e) => {
                return Err(e);
            },
            Ok(_) => {},
        }
        match self.capabilities.validate() {
            Err(e) => {
                return Err(e);
            },
            Ok(_) => {},
        }
        self.other.validate()
    }
}

/// A proposal to clear what is cached of an anchor's capabilities.
#[derive(Debug, PartialEq, Eq)]
pub struct CacheInvalidationProposal {
    pub proposal_id: u64,
    pub anchor: Address,
    pub proposer: Address,
    pub endorsements: Vec<Address>,
    pub created_at_ledger: u32,
    pub expiry_ledgers: u32,
    pub executed: bool,
}

/// How proposals are decided.
#[derive(Clone, Copy, Debug, PartialEq, Eq, Structural)]
pub struct CacheGovernanceConfig {
    pub quorum_threshold: u32,
    pub proposal_expiry_ledgers: u32,
}

/// How proposals are decided unless configured otherwise.
pub open spec fn default_governance() -> CacheGovernanceConfig {
    CacheGovernanceConfig {
        quorum_threshold: DEFAULT_QUORUM,
        proposal_expiry_ledgers: DEFAULT_EXPIRY_LEDGERS,
    }
}

impl CacheGovernanceConfig {
    /// How proposals are decided unless configured otherwise.
    pub fn default_config() -> (c: Self)
        ensures
            c == default_governance(),
    {
        CacheGovernanceConfig {
            quorum_threshold: DEFAULT_QUORUM,
            proposal_expiry_ledgers: DEFAULT_EXPIRY_LEDGERS,
        }
    }
}

/// The configuration in force.
pub open spec fn config_in(env: Ledger) -> CacheGovernanceConfig {
    match env.cache.governance {
        Some(c) => c,
        None => default_governance(),
    }
}

/// The policies in force.
pub open spec fn policies_in(env: Ledger) -> CachePolicySet {
    match env.cache.policies {
        Some(s) => s,
        None => default_policies(),
    }
}

/// The fault of a configuration.
pub open spec fn config_fault(c: CacheGovernanceConfig) -> Option<Seq<char>> {
    if c.quorum_threshold == 0 {
        Some("quorum_threshold must be greater than zero"@)
    } else if c.proposal_expiry_ledgers == 0 {
        Some("proposal_expiry_ledgers must be greater than zero"@)
    } else {
        None
    }
}

/// The configuration in force.
pub fn get_config(env: &Ledger) -> (c: CacheGovernanceConfig)
    ensures
        c == config_in(*env),
{
    match env.cache.governance {
        Some(c) => c,
        None => CacheGovernanceConfig::default_config(),
    }
}

/// Replaces the configuration, unless it has a fault.
pub fn set_config(env: &mut Ledger, config: CacheGovernanceConfig) -> (r: Result<
    (),
    AnchorKitError,
>)
    ensures
        faults(r, config_fault(config)),
        *final(env) == (if config_fault(config) is None {
            Ledger {
                cache: CacheState { governance: Some(config), ..old(env).cache },
                ..*old(env)
            }
        } else {
            *old(env)
        }),
{
    if config.quorum_threshold == 0 {
        return Err(AnchorKitError::validation_error("quorum_threshold must be greater than zero"));
    }
    if config.proposal_expiry_ledgers == 0 {
        return Err(
            AnchorKitError::validation_error("proposal_expiry_ledgers must be greater than zero"),
        );
    }
    env.cache.governance = Some(config);
    Ok(())
}

/// The policies in force.
pub fn get_policy_set(env: &Ledger) -> (s: CachePolicySet)
    ensures
        s == policies_in(*env),
{
    match env.cache.policies {
        Some(s) => s,
        None => CachePolicySet::default_set(),
    }
}

/// Replaces the policies, unless one has a fault.
pub fn set_policy_set(env: &mut Ledger, policies: CachePolicySet) -> (r: Result<
    (),
    AnchorKitError,
>)
    ensures
        faults(r, set_fault(policies)),
        *final(env) == (if set_fault(policies) is None {
            Ledger {
                cache: CacheState { policies: Some(policies), ..old(env).cache },
                ..*old(env)
            }
        } else {
            *old(env)
        }),
{
    match policies.validate() {
        Err(e) => {
            return Err(e);
        },
        Ok(_) => {},
    }
    env.cache.policies = Some(policies);
    Ok(())
}

/// The policy in force for an entry type.
pub fn get_policy(env: &Ledger, entry_type: CacheEntryType) -> (p: CachePolicy)
    ensures
        p == policies_in(*env).of_type(entry_type),
{
    let set = get_policy_set(env);
    *set.for_type(entry_type)
}

/// The lifetime that a write gets, and whether an entry of the given age is to
/// be refreshed under it. An age of zero stands for a new entry, which never
/// is.
pub fn enforce_write_policy(
    env: &Ledger,
    entry_type: CacheEntryType,
    requested_ttl: u64,
    current_age_seconds: u64,
) -> (r: (u64, bool))
    ensures
        ({
            let p = policies_in(*env).of_type(entry_type);
            &&& r.0 == p.clamped(requested_ttl)
            &&& r.1 == (current_age_seconds > 0 && current_age_seconds >= p.refresh_age(r.0))
        }),
{
    let policy = get_policy(env, entry_type);
    let effective_ttl: u64 = policy.clamp_ttl(requested_ttl);
    let refresh_needed = current_age_seconds > 0 && policy.needs_refresh(
        current_age_seconds,
        effective_ttl,
    );
    (effective_ttl, refresh_needed)
}

/// Whether an entry is to be refreshed, and whether it has run out.
pub fn enforce_read_policy(
    env: &Ledger,
    entry_type: CacheEntryType,
    age_seconds: u64,
    ttl_seconds: u64,
) -> (r: (bool, bool))
    ensures
        r.0 == (age_seconds >= policies_in(*env).of_type(entry_type).refresh_age(ttl_seconds)),
        r.1 == (age_seconds >= ttl_seconds),
{
    let policy = get_policy(env, entry_type);
    let expired = policy.is_expired(age_seconds, ttl_seconds);
    let refresh = policy.needs_refresh(age_seconds, ttl_seconds);
    (refresh, expired)
}

/// The fault of forcing out an entry of this type.
pub open spec fn invalidation_fault(env: Ledger, entry_type: CacheEntryType) -> Option<Seq<char>> {
    if policies_in(env).of_type(entry_type).allow_forced_invalidation {
        None
    } else {
        Some("forced invalidation not permitted by policy"@)
    }
}

/// Refuses to force out an entry whose policy does not allow it.
pub fn enforce_invalidation_policy(env: &Ledger, entry_type: CacheEntryType) -> (r: Result<
    (),
    AnchorKitError,
>)
    ensures
        faults(r, invalidation_fault(*env, entry_type)),
{
    let policy = get_policy(env, entry_type);
    if !policy.allow_forced_invalidation {
        return Err(AnchorKitError::validation_error("forced invalidation not permitted by policy"));
    }
    Ok(())
}

/// The proposal that `proposer` opens.
pub open spec fn is_opened(
    p: CacheInvalidationProposal,
    env: Ledger,
    proposer: Address,
    anchor: Address,
) -> bool {
    &&& p.proposal_id == env.cache.proposal_count
    &&& p.anchor == anchor
    &&& p.proposer == proposer
    &&& p.endorsements@ == seq![proposer]
    &&& p.created_at_ledger == env.clock.sequence
    &&& p.expiry_ledgers == config_in(env).proposal_expiry_ledgers
    &&& !p.executed
}

/// Opens a proposal, endorsed by its proposer. Ids count up from zero and are
/// never used twice.
pub fn propose(env: &mut Ledger, proposer: &Address, anchor: &Address) -> (r: Result<
    u64,
    AnchorKitError,
>)
    ensures
        match r {
            Ok(id) => {
                let opened = final(env).cache.proposals@[id];
                &&& old(env).cache.proposal_count < u64::MAX
                &&& id == old(env).cache.proposal_count
                &&& is_opened(opened, *old(env), *proposer, *anchor)
                &&& final(env).cache.proposals@ == old(env).cache.proposals@.insert(id, opened)
                &&& *final(env) == (Ledger {
                    cache: CacheState {
                        proposals: final(env).cache.proposals,
                        proposal_count: (id + 1) as u64,
                        ..old(env).cache
                    },
                    ..*old(env)
                })
            },
            Err(e) => {
                &&& old(env).cache.proposal_count == u64::MAX
                &&& e.code == ErrorCode::CacheCapacityExceeded
                &&& *final(env) == *old(env)
            },
        },
{
    let cfg = get_config(env);
    let proposal_id: u64 = env.cache.proposal_count;
    if proposal_id == u64::MAX {
        return Err(AnchorKitError::cache_capacity_exceeded());
    }
    let mut endorsements: Vec<Address> = Vec::new();
    endorsements.push(*proposer);
    assert(endorsements@ =~= seq![*proposer]);
    let proposal = CacheInvalidationProposal {
        proposal_id,
        anchor: *anchor,
        proposer: *proposer,
        endorsements,
        created_at_ledger: env.clock.sequence,
        expiry_ledgers: cfg.proposal_expiry_ledgers,
        executed: false,
    };
    env.cache.proposals.set(proposal_id, proposal);
    env.cache.proposal_count = proposal_id + 1;
    Ok(proposal_id)
}

/// Whether a proposal is no longer open at a ledger.
pub open spec fn proposal_expired(p: CacheInvalidationProposal, sequence: u32) -> bool {
    sequence >= u32::MAX || sequence >= p.created_at_ledger + p.expiry_ledgers
}

/// What stands in the way of acting on a proposal.
pub enum ProposalRefusal {
    Missing,
    Expired,
    Executed,
    NoQuorum,
}

/// Why a proposal cannot be endorsed.
pub open spec fn endorse_refusal(env: Ledger, id: u64) -> Option<ProposalRefusal> {
    if !env.cache.proposals@.contains_key(id) {
        Some(ProposalRefusal::Missing)
    } else if proposal_expired(env.cache.proposals@[id], env.clock.sequence) {
        Some(ProposalRefusal::Expired)
    } else if env.cache.proposals@[id].executed {
        Some(ProposalRefusal::Executed)
    } else {
        None
    }
}

/// Why a proposal cannot be executed.
pub open spec fn execute_refusal(env: Ledger, id: u64) -> Option<ProposalRefusal> {
    if endorse_refusal(env, id) is Some {
        endorse_refusal(env, id)
    } else if env.cache.proposals@[id].endorsements@.len() < config_in(env).quorum_threshold {
        Some(ProposalRefusal::NoQuorum)
    } else {
        None
    }
}

/// The error that reports a refusal.
pub open spec fn reports(e: AnchorKitError, refusal: ProposalRefusal) -> bool {
    match refusal {
        ProposalRefusal::Missing => e.code == ErrorCode::CacheNotFound,
        ProposalRefusal::Expired => e.is_plain(ErrorCode::StaleQuote, "proposal expired"@),
        ProposalRefusal::Executed => e.is_validation("proposal already executed"@),
        ProposalRefusal::NoQuorum => e.is_validation("quorum not reached"@),
    }
}

fn is_expired(env: &Ledger, proposal: &CacheInvalidationProposal) -> (r: bool)
    ensures
        r == proposal_expired(*proposal, env.clock.sequence),
{
    let current: u32 = env.clock.sequence;
    let expiry: u32 = proposal.created_at_ledger.saturating_add(proposal.expiry_ledgers);
    current >= expiry
}

/// The proposal with one more endorsement, or as it is where the endorser has
/// endorsed it already.
pub open spec fn is_endorsed(
    before: CacheInvalidationProposal,
    after: CacheInvalidationProposal,
    endorser: Address,
) -> bool {
    if before.endorsements@.contains(endorser) {
        after == before
    } else {
        &&& after.endorsements@ == before.endorsements@.push(endorser)
        &&& after == (CacheInvalidationProposal { endorsements: after.endorsements, ..before })
    }
}

/// Endorses a proposal. A second endorsement by the same address changes
/// nothing.
pub fn endorse(env: &mut Ledger, endorser: &Address, proposal_id: u64) -> (r: Result<
    (),
    AnchorKitError,
>)
    ensures
        match endorse_refusal(*old(env), proposal_id) {
            Some(refusal) => r is Err && reports(r->Err_0, refusal) && *final(env) == *old(env),
            None => {
                let before = old(env).cache.proposals@[proposal_id];
                let after = final(env).cache.proposals@[proposal_id];
                &&& r is Ok
                &&& is_endorsed(before, after, *endorser)
                &&& final(env).cache.proposals@ == old(env).cache.proposals@.insert(
                    proposal_id,
                    after,
                )
                &&& *final(env) == (Ledger {
                    cache: CacheState { proposals: final(env).cache.proposals, ..old(env).cache },
                    ..*old(env)
                })
            },
        },
{
    {
        let proposal = match env.cache.proposals.get(&proposal_id) {
            Some(p) => p,
            None => {
                return Err(AnchorKitError::cache_not_found());
            },
        };
        if is_expired(env, proposal) {
            return Err(AnchorKitError::new(ErrorCode::StaleQuote, "proposal expired"));
        }
        if proposal.executed {
            return Err(AnchorKitError::validation_error("proposal already executed"));
        }
        let mut i: usize = 0;
        while i < proposal.endorsements.len()
            invariant
                0 <= i <= proposal.endorsements@.len(),
                *env == *old(env),
                endorse_refusal(*env, proposal_id) is None,
                *proposal == env.cache.proposals@[proposal_id],
                forall|j: int| 0 <= j < i ==> proposal.endorsements@[j] != *endorser,
            decreases proposal.endorsements@.len() - i,
        {
            if proposal.endorsements[i].equals(endorser) {
                proof {
                    assert(proposal.endorsements@.contains(*endorser));
                    assert(env.cache.proposals@ =~= env.cache.proposals@.insert(
                        proposal_id,
                        *proposal,
                    ));
                }
                return Ok(());
            }
            i = i + 1;
        }
    }
    if let Some(p) = env.cache.proposals.get_mut(&proposal_id) {
        p.endorsements.push(*endorser);
    }
    Ok(())
}

/// Executes a proposal that enough attestors have endorsed, and names the
/// anchor whose entry is to be cleared. A proposal is executed at most once.
pub fn execute(env: &mut Ledger, proposal_id: u64) -> (r: Result<Address, AnchorKitError>)
    ensures
        match execute_refusal(*old(env), proposal_id) {
            Some(refusal) => r is Err && reports(r->Err_0, refusal) && *final(env) == *old(env),
            None => {
                let before = old(env).cache.proposals@[proposal_id];
                &&& r == Ok::<Address, AnchorKitError>(before.anchor)
                &&& final(env).cache.proposals@ == old(env).cache.proposals@.insert(
                    proposal_id,
                    (CacheInvalidationProposal { executed: true, ..before }),
                )
                &&& *final(env) == (Ledger {
                    cache: CacheState { proposals: final(env).cache.proposals, ..old(env).cache },
                    ..*old(env)
                })
            },
        },
{
    {
        let proposal = match env.cache.proposals.get(&proposal_id) {
            Some(p) => p,
            None => {
                return Err(AnchorKitError::cache_not_found());
            },
        };
        if is_expired(env, proposal) {
            return Err(AnchorKitError::new(ErrorCode::StaleQuote, "proposal expired"));
        }
        if proposal.executed {
            return Err(AnchorKitError::validation_error("proposal already executed"));
        }
        let cfg = get_config(env);
        if (proposal.endorsements.len() as u64) < cfg.quorum_threshold as u64 {
            return Err(AnchorKitError::validation_error("quorum not reached"));
        }
    }
    match env.cache.proposals.get_mut(&proposal_id) {
        Some(p) => {
            p.executed = true;
            Ok(p.anchor)
        },
        None => Err(AnchorKitError::cache_not_found()),
    }
}

/// The proposal with the given id.
pub fn get_proposal(env: &Ledger, proposal_id: u64) -> (r: Option<&CacheInvalidationProposal>)
    ensures
        match r {
            Some(p) => env.cache.proposals@.contains_key(proposal_id) && *p
                == env.cache.proposals@[proposal_id],
            None => !env.cache.proposals@.contains_key(proposal_id),
        },
{
    env.cache.proposals.get(&proposal_id)
}

/// How many proposals were ever opened.
pub fn proposal_count(env: &Ledger) -> (n: u64)
    ensures
        n == env.cache.proposal_count,
{
    env.cache.proposal_count
}

/// The name of an entry type in the log.
pub open spec fn entry_type_name(entry_type: CacheEntryType) -> Seq<char> {
    match entry_type {
        CacheEntryType::Metadata => "metadata"@,
        CacheEntryType::Capabilities => "capabilities"@,
        CacheEntryType::Other => "other"@,
    }
}

fn entry_type_field(entry_type: CacheEntryType) -> (s: &'static str)
    ensures
        s@ == entry_type_name(entry_type),
{
    match entry_type {
        CacheEntryType::Metadata => "metadata",
        CacheEntryType::Capabilities => "capabilities",
        CacheEntryType::Other => "other",
    }
}

/// The record of an event.
pub open spec fn record_of(
    level: LogLevel,
    event: Seq<char>,
    timestamp: u64,
    fields: Seq<(Seq<char>, FieldView)>,
) -> RecordView {
    RecordView { level, event, timestamp, fields }
}

fn put_number(fields: &mut Vec<(String, FieldValue)>, name: &str, n: u64)
    ensures
        crate::structured_log::field_views(final(fields)@) == crate::structured_log::field_views(
            old(fields)@,
        ).push((name@, FieldView::U64(n))),
{
    fields.push((name.to_owned(), FieldValue::U64(n)));
    assert(crate::structured_log::field_views(fields@) =~= crate::structured_log::field_views(
        old(fields)@,
    ).push((name@, FieldView::U64(n))));
}

fn put_text(fields: &mut Vec<(String, FieldValue)>, name: &str, text: &str)
    ensures
        crate::structured_log::field_views(final(fields)@) == crate::structured_log::field_views(
            old(fields)@,
        ).push((name@, FieldView::Str(text@))),
{
    fields.push((name.to_owned(), FieldValue::Str(text.to_owned())));
    assert(crate::structured_log::field_views(fields@) =~= crate::structured_log::field_views(
        old(fields)@,
    ).push((name@, FieldView::Str(text@))));
}

/// The log field for an address: its text.
pub open spec fn address_field(a: Address) -> FieldView {
    FieldView::Str(strkey_text(a.xdr()))
}

fn put_account(fields: &mut Vec<(String, FieldValue)>, name: &str, a: &Address)
    ensures
        crate::structured_log::field_views(final(fields)@) == crate::structured_log::field_views(
            old(fields)@,
        ).push((name@, address_field(*a))),
{
    let text = a.to_text();
    put_text(fields, name, text.as_str());
}

fn put_error(fields: &mut Vec<(String, FieldValue)>, name: &str, error: &AnchorKitError)
    ensures
        crate::structured_log::field_views(final(fields)@) == crate::structured_log::field_views(
            old(fields)@,
        ).push((name@, FieldView::Str(error.described()))),
{
    let text = error.describe();
    put_text(fields, name, text.as_str());
}

fn no_fields() -> (fields: Vec<(String, FieldValue)>)
    ensures
        crate::structured_log::field_views(fields@) == Seq::<(Seq<char>, FieldView)>::empty(),
{
    let fields: Vec<(String, FieldValue)> = Vec::new();
    assert(crate::structured_log::field_views(fields@) =~= Seq::<(Seq<char>, FieldView)>::empty());
    fields
}

/// The record of a replaced policy set.
pub open spec fn policy_record(
    env: Ledger,
    policies: CachePolicySet,
    r: Result<(), AnchorKitError>,
) -> RecordView {
    match r {
        Ok(_) => record_of(
            LogLevel::Info,
            events::CACHE_POLICY_UPDATED@,
            env.clock.timestamp,
            seq![
                (
                    "metadata_max_ttl_seconds"@,
                    FieldView::U64(policies.metadata.max_ttl_seconds),
                ),
                (
                    "capabilities_max_ttl_seconds"@,
                    FieldView::U64(policies.capabilities.max_ttl_seconds),
                ),
                ("other_max_ttl_seconds"@, FieldView::U64(policies.other.max_ttl_seconds)),
            ],
        ),
        Err(e) => record_of(
            LogLevel::Warn,
            events::CACHE_POLICY_REJECTED@,
            env.clock.timestamp,
            seq![("error"@, FieldView::Str(e.described()))],
        ),
    }
}

/// Replaces the policies as [`set_policy_set`] does, and logs the outcome.
pub fn set_policy_set_logged(
    env: &mut Ledger,
    policies: CachePolicySet,
    logger: &mut StructuredLogger,
) -> (r: Result<(), AnchorKitError>)
    ensures
        faults(r, set_fault(policies)),
        *final(env) == (if set_fault(policies) is None {
            Ledger {
                cache: CacheState { policies: Some(policies), ..old(env).cache },
                ..*old(env)
            }
        } else {
            *old(env)
        }),
        final(logger)@ == old(logger)@.push(policy_record(*old(env), policies, r)),
{
    let ts: u64 = env.clock.timestamp;
    let mut fields = no_fields();
    match set_policy_set(env, policies) {
        Ok(_) => {
            put_number(&mut fields, "metadata_max_ttl_seconds", policies.metadata.max_ttl_seconds);
            put_number(
                &mut fields,
                "capabilities_max_ttl_seconds",
                policies.capabilities.max_ttl_seconds,
            );
            put_number(&mut fields, "other_max_ttl_seconds", policies.other.max_ttl_seconds);
            assert(crate::structured_log::field_views(fields@) =~= policy_record(
                *old(env),
                policies,
                Ok(()),
            ).fields);
            logger.log(LogLevel::Info, events::CACHE_POLICY_UPDATED, ts, fields);
            Ok(())
        },
        Err(err) => {
            put_error(&mut fields, "error", &err);
            assert(crate::structured_log::field_views(fields@) =~= policy_record(
                *old(env),
                policies,
                Err(err),
            ).fields);
            logger.log(LogLevel::Warn, events::CACHE_POLICY_REJECTED, ts, fields);
            Err(err)
        },
    }
}

/// Decides as [`enforce_write_policy`] does, and logs a requested lifetime
/// that was moved into the range.
pub fn enforce_write_policy_logged(
    env: &Ledger,
    entry_type: CacheEntryType,
    requested_ttl: u64,
    current_age_seconds: u64,
    logger: &mut StructuredLogger,
) -> (r: (u64, bool))
    ensures
        ({
            let p = policies_in(*env).of_type(entry_type);
            &&& r.0 == p.clamped(requested_ttl)
            &&& r.1 == (current_age_seconds > 0 && current_age_seconds >= p.refresh_age(r.0))
        }),
        final(logger)@ == (if requested_ttl != 0 && r.0 != requested_ttl {
            old(logger)@.push(
                record_of(
                    LogLevel::Warn,
                    events::CACHE_TTL_CLAMPED@,
                    env.clock.timestamp,
                    seq![
                        ("entry_type"@, FieldView::Str(entry_type_name(entry_type))),
                        ("requested_ttl_seconds"@, FieldView::U64(requested_ttl)),
                        ("effective_ttl_seconds"@, FieldView::U64(r.0)),
                    ],
                ),
            )
        } else {
            old(logger)@
        }),
{
    let (effective_ttl, refresh_needed) = enforce_write_policy(
        env,
        entry_type,
        requested_ttl,
        current_age_seconds,
    );
    if requested_ttl != 0 && effective_ttl != requested_ttl {
        let mut fields = no_fields();
        put_text(&mut fields, "entry_type", entry_type_field(entry_type));
        put_number(&mut fields, "requested_ttl_seconds", requested_ttl);
        put_number(&mut fields, "effective_ttl_seconds", effective_ttl);
        assert(crate::structured_log::field_views(fields@) =~= seq![
            ("entry_type"@, FieldView::Str(entry_type_name(entry_type))),
            ("requested_ttl_seconds"@, FieldView::U64(requested_ttl)),
            ("effective_ttl_seconds"@, FieldView::U64(effective_ttl)),
        ]);
        logger.log(LogLevel::Warn, events::CACHE_TTL_CLAMPED, env.clock.timestamp, fields);
    }
    (effective_ttl, refresh_needed)
}

/// Decides as [`enforce_invalidation_policy`] does, and logs a refusal.
pub fn enforce_invalidation_policy_logged(
    env: &Ledger,
    entry_type: CacheEntryType,
    logger: &mut StructuredLogger,
) -> (r: Result<(), AnchorKitError>)
    ensures
        faults(r, invalidation_fault(*env, entry_type)),
        final(logger)@ == (if r is Err {
            old(logger)@.push(
                record_of(
                    LogLevel::Warn,
                    events::CACHE_INVALIDATION_DENIED@,
                    env.clock.timestamp,
                    seq![("entry_type"@, FieldView::Str(entry_type_name(entry_type)))],
                ),
            )
        } else {
            old(logger)@
        }),
{
    let result = enforce_invalidation_policy(env, entry_type);
    if result.is_err() {
        let mut fields = no_fields();
        put_text(&mut fields, "entry_type", entry_type_field(entry_type));
        assert(crate::structured_log::field_views(fields@) =~= seq![
            ("entry_type"@, FieldView::Str(entry_type_name(entry_type))),
        ]);
        logger.log(LogLevel::Warn, events::CACHE_INVALIDATION_DENIED, env.clock.timestamp, fields);
    }
    result
}

/// Opens a proposal as [`propose`] does, and logs it.
pub fn propose_logged(
    env: &mut Ledger,
    proposer: &Address,
    anchor: &Address,
    logger: &mut StructuredLogger,
) -> (r: Result<u64, AnchorKitError>)
    ensures
        match r {
            Ok(id) => {
                let opened = final(env).cache.proposals@[id];
                &&& old(env).cache.proposal_count < u64::MAX
                &&& id == old(env).cache.proposal_count
                &&& is_opened(opened, *old(env), *proposer, *anchor)
                &&& final(env).cache.proposals@ == old(env).cache.proposals@.insert(id, opened)
                &&& *final(env) == (Ledger {
                    cache: CacheState {
                        proposals: final(env).cache.proposals,
                        proposal_count: (id + 1) as u64,
                        ..old(env).cache
                    },
                    ..*old(env)
                })
                &&& final(logger)@ == old(logger)@.push(
                    record_of(
                        LogLevel::Info,
                        events::CACHE_PROPOSAL_CREATED@,
                        old(env).clock.timestamp,
                        seq![
                            ("proposal_id"@, FieldView::U64(id)),
                            ("anchor"@, address_field(*anchor)),
                            ("proposer"@, address_field(*proposer)),
                            ("ledger"@, FieldView::U64(old(env).clock.sequence as u64)),
                        ],
                    ),
                )
            },
            Err(e) => {
                &&& old(env).cache.proposal_count == u64::MAX
                &&& e.code == ErrorCode::CacheCapacityExceeded
                &&& *final(env) == *old(env)
                &&& final(logger)@ == old(logger)@
            },
        },
{
    match propose(env, proposer, anchor) {
        Err(e) => Err(e),
        Ok(proposal_id) => {
            let mut fields = no_fields();
            put_number(&mut fields, "proposal_id", proposal_id);
            put_account(&mut fields, "anchor", anchor);
            put_account(&mut fields, "proposer", proposer);
            put_number(&mut fields, "ledger", env.clock.sequence as u64);
            assert(crate::structured_log::field_views(fields@) =~= seq![
                ("proposal_id"@, FieldView::U64(proposal_id)),
                ("anchor"@, address_field(*anchor)),
                ("proposer"@, address_field(*proposer)),
                ("ledger"@, FieldView::U64(old(env).clock.sequence as u64)),
            ]);
            logger.log(LogLevel::Info, events::CACHE_PROPOSAL_CREATED, env.clock.timestamp, fields);
            Ok(proposal_id)
        },
    }
}

/// The record of an endorsement that left the proposal as `after`.
pub open spec fn endorsement_record(
    env: Ledger,
    after: CacheInvalidationProposal,
    endorser: Address,
    id: u64,
) -> RecordView {
    record_of(
        LogLevel::Info,
        events::CACHE_PROPOSAL_ENDORSED@,
        env.clock.timestamp,
        seq![
            ("proposal_id"@, FieldView::U64(id)),
            ("endorser"@, address_field(endorser)),
            ("endorsement_count"@, FieldView::U64(after.endorsements@.len() as u64)),
        ],
    )
}

/// The record of a refusal to act on a proposal.
pub open spec fn refusal_record(
    env: Ledger,
    event: Seq<char>,
    id: u64,
    error: AnchorKitError,
) -> RecordView {
    record_of(
        LogLevel::Warn,
        event,
        env.clock.timestamp,
        seq![("proposal_id"@, FieldView::U64(id)), ("error"@, FieldView::Str(error.described()))],
    )
}

/// Endorses a proposal as [`endorse`] does, and logs the outcome.
pub fn endorse_logged(
    env: &mut Ledger,
    endorser: &Address,
    proposal_id: u64,
    logger: &mut StructuredLogger,
) -> (r: Result<(), AnchorKitError>)
    ensures
        match endorse_refusal(*old(env), proposal_id) {
            Some(refusal) => {
                &&& r is Err && reports(r->Err_0, refusal) && *final(env) == *old(env)
                &&& final(logger)@ == old(logger)@.push(
                    refusal_record(
                        *old(env),
                        events::CACHE_PROPOSAL_ENDORSE_FAILED@,
                        proposal_id,
                        r->Err_0,
                    ),
                )
            },
            None => {
                let before = old(env).cache.proposals@[proposal_id];
                let after = final(env).cache.proposals@[proposal_id];
                &&& r is Ok
                &&& is_endorsed(before, after, *endorser)
                &&& final(env).cache.proposals@ == old(env).cache.proposals@.insert(
                    proposal_id,
                    after,
                )
                &&& *final(env) == (Ledger {
                    cache: CacheState { proposals: final(env).cache.proposals, ..old(env).cache },
                    ..*old(env)
                })
                &&& final(logger)@ == old(logger)@.push(
                    endorsement_record(*old(env), after, *endorser, proposal_id),
                )
            },
        },
{
    let ts: u64 = env.clock.timestamp;
    let mut fields = no_fields();
    put_number(&mut fields, "proposal_id", proposal_id);
    match endorse(env, endorser, proposal_id) {
        Ok(_) => {
            let endorsement_count: u64 = match get_proposal(env, proposal_id) {
                Some(p) => p.endorsements.len() as u64,
                None => 0,
            };
            put_account(&mut fields, "endorser", endorser);
            put_number(&mut fields, "endorsement_count", endorsement_count);
            assert(crate::structured_log::field_views(fields@) =~= endorsement_record(
                *old(env),
                env.cache.proposals@[proposal_id],
                *endorser,
                proposal_id,
            ).fields);
            logger.log(LogLevel::Info, events::CACHE_PROPOSAL_ENDORSED, ts, fields);
            Ok(())
        },
        Err(err) => {
            put_error(&mut fields, "error", &err);
            assert(crate::structured_log::field_views(fields@) =~= refusal_record(
                *old(env),
                events::CACHE_PROPOSAL_ENDORSE_FAILED@,
                proposal_id,
                err,
            ).fields);
            logger.log(LogLevel::Warn, events::CACHE_PROPOSAL_ENDORSE_FAILED, ts, fields);
            Err(err)
        },
    }
}

/// Executes a proposal as [`execute`] does, and logs the outcome.
pub fn execute_logged(env: &mut Ledger, proposal_id: u64, logger: &mut StructuredLogger) -> (r:
    Result<Address, AnchorKitError>)
    ensures
        match execute_refusal(*old(env), proposal_id) {
            Some(refusal) => {
                &&& r is Err && reports(r->Err_0, refusal) && *final(env) == *old(env)
                &&& final(logger)@ == old(logger)@.push(
                    refusal_record(
                        *old(env),
                        events::CACHE_PROPOSAL_EXECUTE_FAILED@,
                        proposal_id,
                        r->Err_0,
                    ),
                )
            },
            None => {
                let before = old(env).cache.proposals@[proposal_id];
                &&& r == Ok::<Address, AnchorKitError>(before.anchor)
                &&& final(env).cache.proposals@ == old(env).cache.proposals@.insert(
                    proposal_id,
                    (CacheInvalidationProposal { executed: true, ..before }),
                )
                &&& *final(env) == (Ledger {
                    cache: CacheState { proposals: final(env).cache.proposals, ..old(env).cache },
                    ..*old(env)
                })
                &&& final(logger)@ == old(logger)@.push(
                    record_of(
                        LogLevel::Info,
                        events::CACHE_PROPOSAL_EXECUTED@,
                        old(env).clock.timestamp,
                        seq![
                            ("proposal_id"@, FieldView::U64(proposal_id)),
                            ("anchor"@, address_field(before.anchor)),
                        ],
                    ),
                )
            },
        },
{
    let ts: u64 = env.clock.timestamp;
    let mut fields = no_fields();
    put_number(&mut fields, "proposal_id", proposal_id);
    match execute(env, proposal_id) {
        Ok(anchor) => {
            put_account(&mut fields, "anchor", &anchor);
            assert(crate::structured_log::field_views(fields@) =~= seq![
                ("proposal_id"@, FieldView::U64(proposal_id)),
                ("anchor"@, address_field(anchor)),
            ]);
            logger.log(LogLevel::Info, events::CACHE_PROPOSAL_EXECUTED, ts, fields);
            Ok(anchor)
        },
        Err(err) => {
            put_error(&mut fields, "error", &err);
            assert(crate::structured_log::field_views(fields@) =~= refusal_record(
                *old(env),
                events::CACHE_PROPOSAL_EXECUTE_FAILED@,
                proposal_id,
                err,
            ).fields);
            logger.log(LogLevel::Warn, events::CACHE_PROPOSAL_EXECUTE_FAILED, ts, fields);
            Err(err)
        },
    }
}

/// Under a sound policy a requested lifetime ends up within the range, and an
/// entry is due for refresh no later than it runs out.
pub proof fn sound_policies_bound_lifetimes(p: CachePolicy, requested: u64, age: u64, ttl: u64)
    requires
        policy_fault(p) is None,
    ensures
        p.min_ttl_seconds <= p.clamped(requested) <= p.max_ttl_seconds,
        age >= ttl ==> age >= p.refresh_age(ttl),
{
    assert(ttl * p.refresh_threshold_pct <= ttl * 100) by (nonlinear_arith)
        requires
            p.refresh_threshold_pct <= 100,
    ;
}

/// No address endorses a proposal twice: endorsing keeps the endorsements free
/// of repetitions, and endorsing again changes nothing.
pub proof fn endorsements_stay_distinct(
    p: CacheInvalidationProposal,
    q: CacheInvalidationProposal,
    t: CacheInvalidationProposal,
    endorser: Address,
)
    requires
        p.endorsements@.no_duplicates(),
        is_endorsed(p, q, endorser),
        is_endorsed(q, t, endorser),
    ensures
        q.endorsements@.no_duplicates(),
        q.endorsements@.contains(endorser),
        t == q,
{
    if !p.endorsements@.contains(endorser) {
        assert(q.endorsements@.last() == endorser);
        assert forall|i: int, j: int|
            0 <= i < q.endorsements@.len() && 0 <= j < q.endorsements@.len() && i != j implies q.endorsements@[i]
            != q.endorsements@[j] by {
            if i < p.endorsements@.len() {
                assert(q.endorsements@[i] == p.endorsements@[i]);
                assert(p.endorsements@.contains(p.endorsements@[i]));
            }
            if j < p.endorsements@.len() {
                assert(q.endorsements@[j] == p.endorsements@[j]);
                assert(p.endorsements@.contains(p.endorsements@[j]));
            }
        }
    }
}

/// A proposal that was executed can be neither endorsed nor executed again.
pub proof fn executed_proposals_are_closed(env: Ledger, id: u64)
    requires
        env.cache.proposals@.contains_key(id),
        env.cache.proposals@[id].executed,
    ensures
        endorse_refusal(env, id) is Some,
        execute_refusal(env, id) is Some,
{
}

} // verus!
