//! Settings of the contract.
use crate::address::Address;
use crate::cache_governance::{policies_in, set_fault, CachePolicySet};
use crate::contract::ledger::{
    admin_refusal, either, follows, duty_refusal, refuse_when, AdminAction, AdminOutcome,
    AdminTarget, AnchorKitContract, CacheState, ConfigState, ContractError, Duty, Ledger,
};
use crate::contract::types::{CacheConfig, CapacityConfig, CompliancePolicy};
use crate::errors::ErrorCode;
use vstd::prelude::*;

verus! {

/// The cache settings in force.
pub open spec fn cache_config_in(env: Ledger) -> CacheConfig {
    match env.config.cache {
        Some(c) => c,
        None => CacheConfig {
            metadata_ttl_seconds: 3_600,
            capabilities_ttl_seconds: 21_600,
            swr_ttl_seconds: 300,
        },
    }
}

/// The capacity settings in force.
pub open spec fn capacity_in(env: Ledger) -> CapacityConfig {
    match env.config.capacity {
        Some(c) => c,
        None => CapacityConfig { max_attestors: 1000, max_cache_entries: 10000 },
    }
}

/// The compliance policy in force.
pub open spec fn compliance_policy_in(env: Ledger) -> CompliancePolicy {
    match env.config.compliance {
        Some(p) => p,
        None => CompliancePolicy { minimum_score: None },
    }
}

/// The lifetime to use: the one asked for, or where none was asked for the
/// configured one.
pub open spec fn chosen_ttl(override_ttl: u64, configured: u64) -> u64 {
    if override_ttl != 0 {
        override_ttl
    } else {
        configured
    }
}

/// The refusal of cache settings with a lifetime of zero.
pub open spec fn cache_config_refusal(c: CacheConfig) -> Option<ContractError> {
    refuse_when(
        c.metadata_ttl_seconds == 0 || c.capabilities_ttl_seconds == 0 || c.swr_ttl_seconds == 0,
        ErrorCode::ValidationError,
    )
}

/// The ledger after the compliance policy was set.
pub open spec fn compliance_policy_set(
    before: Ledger,
    after: Ledger,
    policy: CompliancePolicy,
) -> bool {
    after == (Ledger {
        config: ConfigState { compliance: Some(policy), ..before.config },
        ..before
    })
}

/// Why cache settings are not replaced.
pub open spec fn cache_settings_refusal(env: Ledger, config: CacheConfig) -> Option<ContractError> {
    either(
        duty_refusal(env, Duty::CacheSettings),
        cache_config_refusal(config),
    )
}

/// The ledger after the cache settings were replaced.
pub open spec fn cache_config_set(before: Ledger, after: Ledger, config: CacheConfig) -> bool {
    &&& after == (Ledger {
        config: ConfigState { cache: Some(config), ..before.config },
        admin_log: after.admin_log,
        ..before
    })
    &&& after.admin_log@ == before.admin_log@.push(
        AdminAction {
            actor: before.access.admin->0,
            action: "set_cache_config",
            target: AdminTarget::Label("cache"),
            before: "",
            after: AdminOutcome::Label("updated"),
        },
    )
}

/// Why cache policies are not replaced.
pub open spec fn cache_policies_refusal(
    env: Ledger,
    policies: CachePolicySet,
) -> Option<ContractError> {
    either(
        admin_refusal(env),
        refuse_when(set_fault(policies) is Some, ErrorCode::ValidationError),
    )
}

/// The ledger after the cache policies were replaced.
pub open spec fn cache_policies_set(
    before: Ledger,
    after: Ledger,
    policies: CachePolicySet,
) -> bool {
    after == (Ledger {
        cache: CacheState { policies: Some(policies), ..before.cache },
        ..before
    })
}

/// The ledger after the capacity settings were replaced.
pub open spec fn capacity_set(before: Ledger, after: Ledger, config: CapacityConfig) -> bool {
    after == (Ledger {
        config: ConfigState { capacity: Some(config), ..before.config },
        ..before
    })
}

impl AnchorKitContract {
    /// Replaces the compliance policy.
    pub fn set_compliance_policy(env: &mut Ledger, policy: CompliancePolicy) -> (r: Result<
        (),
        ContractError,
    >)
        ensures
            follows(r, admin_refusal(*old(env))),
            r is Err ==> *final(env) == *old(env),
            r is Ok ==> compliance_policy_set(*old(env), *final(env), policy),
    {
        if let Err(e) = env.require_admin() {
            return Err(e);
        }
        env.config.compliance = Some(policy);
        Ok(())
    }

    /// The compliance policy in force.
    pub fn get_compliance_policy(env: &Ledger) -> (p: CompliancePolicy)
        ensures
            p == compliance_policy_in(*env),
    {
        match env.config.compliance {
            Some(p) => p,
            None => CompliancePolicy::default_policy(),
        }
    }

    /// Replaces the cache settings. A lifetime of zero is refused.
    pub fn set_cache_config(env: &mut Ledger, config: CacheConfig) -> (r: Result<(), ContractError>)
        ensures
            follows(r, cache_settings_refusal(*old(env), config)),
            r is Err ==> *final(env) == *old(env),
            r is Ok ==> cache_config_set(*old(env), *final(env), config),
    {
        let admin = match env.require_duty(Duty::CacheSettings) {
            Err(e) => {
                return Err(e);
            },
            Ok(a) => a,
        };
        if config.metadata_ttl_seconds == 0 || config.capabilities_ttl_seconds == 0
            || config.swr_ttl_seconds == 0 {
            return Err(ContractError::Code(ErrorCode::ValidationError));
        }
        env.config.cache = Some(config);
        env.log_action(admin, "set_cache_config", AdminTarget::Label("cache"), "", "updated");
        Ok(())
    }

    /// The cache settings in force.
    pub fn get_cache_config(env: &Ledger) -> (c: CacheConfig)
        ensures
            c == cache_config_in(*env),
    {
        match env.config.cache {
            Some(c) => c,
            None => CacheConfig::default_config(),
        }
    }

    /// Replaces the cache policies. A set with a fault is refused.
    pub fn set_cache_policy_set(env: &mut Ledger, policies: CachePolicySet) -> (r: Result<
        (),
        ContractError,
    >)
        ensures
            follows(r, cache_policies_refusal(*old(env), policies)),
            r is Err ==> *final(env) == *old(env),
            r is Ok ==> cache_policies_set(*old(env), *final(env), policies),
    {
        if let Err(e) = env.require_admin() {
            return Err(e);
        }
        match crate::cache_governance::set_policy_set(env, policies) {
            Ok(_) => Ok(()),
            Err(_) => Err(ContractError::Code(ErrorCode::ValidationError)),
        }
    }

    /// The cache policies in force.
    pub fn get_cache_policy_set(env: &Ledger) -> (s: CachePolicySet)
        ensures
            s == policies_in(*env),
    {
        crate::cache_governance::get_policy_set(env)
    }

    /// The lifetime to use.
    pub fn effective_ttl(override_ttl: u64, configured: u64) -> (t: u64)
        ensures
            t == chosen_ttl(override_ttl, configured),
    {
        if override_ttl != 0 {
            override_ttl
        } else {
            configured
        }
    }

    /// Replaces the capacity settings.
    pub fn set_capacity_config(env: &mut Ledger, config: CapacityConfig) -> (r: Result<
        (),
        ContractError,
    >)
        ensures
            follows(r, admin_refusal(*old(env))),
            r is Err ==> *final(env) == *old(env),
            r is Ok ==> capacity_set(*old(env), *final(env), config),
    {
        if let Err(e) = env.require_admin() {
            return Err(e);
        }
        env.config.capacity = Some(config);
        Ok(())
    }

    /// The capacity settings in force.
    pub fn get_capacity_config(env: &Ledger) -> (c: CapacityConfig)
        ensures
            c == capacity_in(*env),
    {
        match env.config.capacity {
            Some(c) => c,
            None => CapacityConfig::default_config(),
        }
    }

    /// How many attestors are registered.
    pub fn get_attestor_count(env: &Ledger) -> (n: u64)
        ensures
            n == env.attestors.count,
    {
        env.attestors.count
    }

    /// The registered attestors, in the order of their registration.
    pub fn list_registered_attestors(env: &Ledger) -> (r: &Vec<Address>)
        ensures
            *r == env.attestors.list,
    {
        &env.attestors.list
    }

    /// How many cache entries are counted.
    pub fn get_cache_count(env: &Ledger) -> (n: u64)
        ensures
            n == env.cache.count,
    {
        env.cache.count
    }
}

} // verus!
