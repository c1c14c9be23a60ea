//! How often an attestor may submit.
use crate::address::Address;
use crate::contract::events::{Event, RateLimitHitEvent};
use crate::contract::ledger::{
    capability_refusal, either, follows, holds_role, refuse_when, AdminAction, AdminOutcome,
    AdminTarget, AnchorKitContract, ContractError, Ledger, RateState,
};
use crate::contract::types::{AdminCapability, AdminRole};
use crate::errors::ErrorCode;
use crate::rate_limiter::{
    check_and_increment, counted, default_limit, RateLimitConfig, RateLimitState,
};
use vstd::prelude::*;

verus! {

/// The name of a role.
pub open spec fn name_of_role(role: AdminRole) -> Seq<char> {
    match role {
        AdminRole::KycAdmin => "KycAdmin"@,
        AdminRole::AttestorAdmin => "AttestorAdmin"@,
        AdminRole::CacheAdmin => "CacheAdmin"@,
    }
}

/// The first role that an address holds.
pub open spec fn first_role(env: Ledger, a: Address) -> Option<AdminRole> {
    if holds_role(env, a, AdminRole::KycAdmin) {
        Some(AdminRole::KycAdmin)
    } else if holds_role(env, a, AdminRole::AttestorAdmin) {
        Some(AdminRole::AttestorAdmin)
    } else if holds_role(env, a, AdminRole::CacheAdmin) {
        Some(AdminRole::CacheAdmin)
    } else {
        None
    }
}

/// The limit for everyone.
pub open spec fn global_limit(env: Ledger) -> RateLimitConfig {
    match env.rates.config {
        Some(c) => c,
        None => default_limit(),
    }
}

/// The limit for an address that counts as holding a role: its own where it has
/// one, else that of the role where that has one, else the limit for everyone.
pub open spec fn limit_under(env: Ledger, a: Address, role: Option<Seq<char>>) -> RateLimitConfig {
    if env.rates.addresses@.contains_key(a) {
        env.rates.addresses@[a]
    } else if role is Some && env.rates.roles@.contains_key(role->0) {
        env.rates.roles@[role->0]
    } else {
        global_limit(env)
    }
}

/// The limit for an address under the first role it holds.
pub open spec fn limit_of(env: Ledger, a: Address) -> RateLimitConfig {
    limit_under(
        env,
        a,
        match first_role(env, a) {
            Some(role) => Some(name_of_role(role)),
            None => None,
        },
    )
}

/// What was counted for an address so far.
pub open spec fn rate_state(env: Ledger, a: Address) -> Option<RateLimitState> {
    if env.rates.states@.contains_key(a) {
        Some(env.rates.states@[a])
    } else {
        None
    }
}

/// The count of an address after one more submission, `None` when its window
/// is full.
pub open spec fn rate_step(env: Ledger, a: Address) -> Option<RateLimitState> {
    counted(rate_state(env, a), limit_of(env, a), env.clock.sequence)
}

/// The rate limits with the count of one address replaced.
pub open spec fn rate_counted(before: RateState, after: RateState, a: Address, s: RateLimitState) -> bool {
    &&& after == (RateState { states: after.states, ..before })
    &&& after.states@ == before.states@.insert(a, s)
}

/// The announcement that an address has reached its limit.
pub open spec fn limit_hit(env: Ledger, a: Address) -> Event {
    Event::RateLimitHit(
        RateLimitHitEvent {
            attestor: a,
            timestamp: env.clock.timestamp,
            ledger_sequence: env.clock.sequence,
        },
    )
}

/// Why a change of a limit is refused.
pub open spec fn limit_refusal(env: Ledger, caller: Address, config: RateLimitConfig) -> Option<
    ContractError,
> {
    either(
        capability_refusal(env, caller, AdminCapability::SetRateLimits),
        refuse_when(!config.sound(), ErrorCode::ValidationError),
    )
}

/// The entry of a change of a limit in the administrative log.
pub open spec fn limit_entry(caller: Address, action: &'static str, target: &'static str) -> AdminAction {
    AdminAction {
        actor: caller,
        action,
        target: AdminTarget::Label(target),
        before: "",
        after: AdminOutcome::Label("updated"),
    }
}

/// The name of a role.
pub fn role_name(role: AdminRole) -> (s: &'static str)
    ensures
        s@ == name_of_role(role),
{
    match role {
        AdminRole::KycAdmin => "KycAdmin",
        AdminRole::AttestorAdmin => "AttestorAdmin",
        AdminRole::CacheAdmin => "CacheAdmin",
    }
}

/// Decides which limit holds for an address.
pub struct RateLimiter;

impl RateLimiter {
    /// The limit for an address that counts as holding the named role.
    pub fn resolve_config(env: &Ledger, attestor: &Address, role: Option<&str>) -> (c:
        RateLimitConfig)
        ensures
            c == limit_under(
                *env,
                *attestor,
                match role {
                    Some(name) => Some(name@),
                    None => None,
                },
            ),
    {
        if let Some(c) = env.rates.addresses.get(attestor) {
            return *c;
        }
        if let Some(name) = role {
            if let Some(c) = env.rates.roles.get(&name.to_owned()) {
                return *c;
            }
        }
        AnchorKitContract::get_rate_limit_config(env)
    }
}

/// The ledger after the limit of a role was set.
pub open spec fn role_limit_set(
    before: Ledger,
    after: Ledger,
    caller: Address,
    role: String,
    config: RateLimitConfig,
) -> bool {
    &&& after == (Ledger {
        rates: RateState { roles: after.rates.roles, ..before.rates },
        admin_log: after.admin_log,
        ..before
    })
    &&& after.rates.roles@ == before.rates.roles@.insert(role@, config)
    &&& after.admin_log@ == before.admin_log@.push(
        limit_entry(caller, "set_role_rate_limit", "role"),
    )
}

/// The ledger after the limit of an address was set.
pub open spec fn address_limit_set(
    before: Ledger,
    after: Ledger,
    caller: Address,
    address: Address,
    config: RateLimitConfig,
) -> bool {
    &&& after == (Ledger {
        rates: RateState { addresses: after.rates.addresses, ..before.rates },
        admin_log: after.admin_log,
        ..before
    })
    &&& after.rates.addresses@ == before.rates.addresses@.insert(address, config)
    &&& after.admin_log@ == before.admin_log@.push(
        limit_entry(caller, "set_address_rate_limit", "address"),
    )
}

/// What comes of setting the limit for everyone.
pub open spec fn global_limit_outcome(
    before: Ledger,
    after: Ledger,
    caller: Address,
    max_submissions: u32,
    window_length: u32,
    out: Result<(), ContractError>,
) -> bool {
    let config = RateLimitConfig { max_submissions, window_length };
    &&& follows(out, limit_refusal(before, caller, config))
    &&& out is Err ==> after == before
    &&& out is Ok ==> {
        &&& after == (Ledger {
            rates: RateState { config: Some(config), ..before.rates },
            admin_log: after.admin_log,
            ..before
        })
        &&& after.admin_log@ == before.admin_log@.push(
            limit_entry(caller, "set_rate_limit_config", "rate_limiter"),
        )
    }
}

impl AnchorKitContract {
    /// The limit for everyone.
    pub fn get_rate_limit_config(env: &Ledger) -> (c: RateLimitConfig)
        ensures
            c == global_limit(*env),
    {
        match env.rates.config {
            Some(c) => c,
            None => RateLimitConfig::default_config(),
        }
    }

    /// The limit for an address under the first role it holds.
    pub fn resolve_rate_limit(env: &Ledger, attestor: &Address) -> (c: RateLimitConfig)
        ensures
            c == limit_of(*env, *attestor),
    {
        let role = if env.has_role(attestor, AdminRole::KycAdmin) {
            Some(role_name(AdminRole::KycAdmin))
        } else if env.has_role(attestor, AdminRole::AttestorAdmin) {
            Some(role_name(AdminRole::AttestorAdmin))
        } else if env.has_role(attestor, AdminRole::CacheAdmin) {
            Some(role_name(AdminRole::CacheAdmin))
        } else {
            None
        };
        RateLimiter::resolve_config(env, attestor, role)
    }

    /// The count of an attestor after one more submission; one over the limit is
    /// refused.
    pub(crate) fn check_rate_limit(env: &Ledger, attestor: &Address) -> (r: Result<
        RateLimitState,
        ContractError,
    >)
        ensures
            match rate_step(*env, *attestor) {
                Some(s) => r == Ok::<RateLimitState, ContractError>(s),
                None => r == Err::<RateLimitState, ContractError>(
                    ContractError::Code(ErrorCode::RateLimitExceeded),
                ),
            },
    {
        let config = Self::resolve_rate_limit(env, attestor);
        let state = match env.rates.states.get(attestor) {
            Some(s) => Some(*s),
            None => None,
        };
        match check_and_increment(state, config, env.clock.sequence) {
            Some(s) => Ok(s),
            None => Err(ContractError::Code(ErrorCode::RateLimitExceeded)),
        }
    }

    /// Counts a submission of an attestor. One over the limit is refused.
    pub fn enforce_rate_limit(env: &mut Ledger, attestor: &Address) -> (r: Result<
        (),
        ContractError,
    >)
        ensures
            match rate_step(*old(env), *attestor) {
                Some(s) => {
                    &&& r is Ok
                    &&& *final(env) == (Ledger { rates: final(env).rates, ..*old(env) })
                    &&& rate_counted(old(env).rates, final(env).rates, *attestor, s)
                },
                None => {
                    &&& r == Err::<(), ContractError>(
                        ContractError::Code(ErrorCode::RateLimitExceeded),
                    )
                    &&& *final(env) == *old(env)
                },
            },
    {
        match Self::check_rate_limit(env, attestor) {
            Ok(s) => {
                env.rates.states.set(*attestor, s);
                Ok(())
            },
            Err(e) => Err(e),
        }
    }

    /// Announces that an attestor has reached its limit. A refused submission
    /// changes nothing, so the announcement is a call of its own.
    pub fn note_limit_hit(env: &mut Ledger, attestor: &Address)
        ensures
            *final(env) == (Ledger { events: final(env).events, ..*old(env) }),
            final(env).events@ == old(env).events@.push(limit_hit(*old(env), *attestor)),
    {
        let event = RateLimitHitEvent {
            attestor: *attestor,
            timestamp: env.clock.timestamp,
            ledger_sequence: env.clock.sequence,
        };
        env.publish(Event::RateLimitHit(event));
    }

    /// Replaces the limit for everyone.
    pub fn set_rate_limit_config(
        env: &mut Ledger,
        caller: Address,
        max_submissions: u32,
        window_length: u32,
    ) -> (r: Result<(), ContractError>)
        ensures
            global_limit_outcome(
                *old(env),
                *final(env),
                caller,
                max_submissions,
                window_length,
                r,
            ),
    {
        if let Err(e) = env.require_admin_or_capability(&caller, AdminCapability::SetRateLimits) {
            return Err(e);
        }
        let config = RateLimitConfig { max_submissions, window_length };
        if !config.is_sound() {
            return Err(ContractError::Code(ErrorCode::ValidationError));
        }
        env.rates.config = Some(config);
        env.log_action(
            caller,
            "set_rate_limit_config",
            AdminTarget::Label("rate_limiter"),
            "",
            "updated",
        );
        Ok(())
    }

    /// Sets the limit for the holders of a role.
    pub fn set_role_rate_limit(
        env: &mut Ledger,
        caller: Address,
        role: String,
        config: RateLimitConfig,
    ) -> (r: Result<(), ContractError>)
        ensures
            follows(r, limit_refusal(*old(env), caller, config)),
            r is Err ==> *final(env) == *old(env),
            r is Ok ==> role_limit_set(*old(env), *final(env), caller, role, config),
    {
        if let Err(e) = env.require_admin_or_capability(&caller, AdminCapability::SetRateLimits) {
            return Err(e);
        }
        if !config.is_sound() {
            return Err(ContractError::Code(ErrorCode::ValidationError));
        }
        env.rates.roles.set(role, config);
        env.log_action(caller, "set_role_rate_limit", AdminTarget::Label("role"), "", "updated");
        Ok(())
    }

    /// The limit for the holders of a role.
    pub fn get_role_rate_limit(env: &Ledger, role: String) -> (r: Option<RateLimitConfig>)
        ensures
            r == (if env.rates.roles@.contains_key(role@) {
                Some(env.rates.roles@[role@])
            } else {
                None
            }),
    {
        match env.rates.roles.get(&role) {
            Some(c) => Some(*c),
            None => None,
        }
    }

    /// Sets the limit for an address.
    pub fn set_address_rate_limit(
        env: &mut Ledger,
        caller: Address,
        address: Address,
        config: RateLimitConfig,
    ) -> (r: Result<(), ContractError>)
        ensures
            follows(r, limit_refusal(*old(env), caller, config)),
            r is Err ==> *final(env) == *old(env),
            r is Ok ==> address_limit_set(*old(env), *final(env), caller, address, config),
    {
        if let Err(e) = env.require_admin_or_capability(&caller, AdminCapability::SetRateLimits) {
            return Err(e);
        }
        if !config.is_sound() {
            return Err(ContractError::Code(ErrorCode::ValidationError));
        }
        env.rates.addresses.set(address, config);
        env.log_action(
            caller,
            "set_address_rate_limit",
            AdminTarget::Label("address"),
            "",
            "updated",
        );
        Ok(())
    }

    /// The limit for an address, where it has its own.
    pub fn get_address_rate_limit(env: &Ledger, address: Address) -> (r: Option<RateLimitConfig>)
        ensures
            r == (if env.rates.addresses@.contains_key(address) {
                Some(env.rates.addresses@[address])
            } else {
                None
            }),
    {
        match env.rates.addresses.get(&address) {
            Some(c) => Some(*c),
            None => None,
        }
    }
}

/// The limit of an address takes precedence over that of its role, and the
/// limit of its role over that of everyone.
pub proof fn limits_have_precedence(env: Ledger, a: Address)
    ensures
        env.rates.addresses@.contains_key(a) ==> limit_of(env, a) == env.rates.addresses@[a],
        !env.rates.addresses@.contains_key(a) && first_role(env, a) is Some
            && env.rates.roles@.contains_key(name_of_role(first_role(env, a)->0)) ==> limit_of(
            env,
            a,
        ) == env.rates.roles@[name_of_role(first_role(env, a)->0)],
        !env.rates.addresses@.contains_key(a) && first_role(env, a) is None ==> limit_of(env, a)
            == global_limit(env),
{
}

} // verus!
