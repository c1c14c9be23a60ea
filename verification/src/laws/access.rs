//! Laws of authorisation and administration.
use crate::address::Address;
use crate::contract::access::{
    is_zero_hash, logs_grant, migrate_refusal, name_of_capability, rewrites_quotes, version_advanced,
    version_in,
};
use crate::contract::ledger::{
    admin_refusal, attestor_refusal, auth_refusal, capability_refusal, delegate_refusal,
    duty_refusal, entrusted, holds_capability, holds_role, role_refusal, unsigned_duty, AccessState,
    AdminAction, AdminOutcome, AdminTarget, ContractError, Duty, Ledger,
};
use crate::contract::limits::name_of_role;
use crate::contract::types::{AdminCapability, AdminRole};
use crate::errors::ErrorCode;
use vstd::prelude::*;

verus! {

/// A call in the name of an address is refused exactly where the address has not
/// signed it.
pub proof fn calls_are_signed(env: Ledger, a: Address)
    ensures
        auth_refusal(env, a) is None <==> env.auth.all || env.auth.signers@.contains(a),
        auth_refusal(env, a) is Some ==> auth_refusal(env, a) == Some(ContractError::AuthRequired(a)),
{
}

/// What only the admin may do is refused exactly where there is no admin, or the
/// admin has not signed the call.
pub proof fn the_admin_signs(env: Ledger)
    ensures
        admin_refusal(env) is None <==> env.access.admin is Some && (env.auth.all
            || env.auth.signers@.contains(env.access.admin->0)),
        env.access.admin is None ==> admin_refusal(env) == Some(
            ContractError::Code(ErrorCode::NotInitialized),
        ),
        env.access.admin is Some && admin_refusal(env) is Some ==> admin_refusal(env) == Some(
            ContractError::AuthRequired(env.access.admin->0),
        ),
{
}

/// A role and a capability belong to the admin and to whom they were granted, and
/// to nobody else.
pub proof fn grants_are_held(env: Ledger, a: Address, role: AdminRole, cap: AdminCapability)
    ensures
        holds_role(env, a, role) <==> env.access.admin == Some(a) || (env.access.roles@.contains_key(
            (role, a),
        ) && env.access.roles@[(role, a)]),
        holds_capability(env, a, cap) <==> env.access.admin == Some(a)
            || (env.access.capabilities@.contains_key((cap, a)) && env.access.capabilities@[(
            cap,
            a,
        )]),
{
}

/// A caller acts under a role, or under a capability, exactly where it holds it
/// and has signed the call.
pub proof fn callers_hold_what_they_act_under(
    env: Ledger,
    caller: Address,
    role: AdminRole,
    cap: AdminCapability,
)
    ensures
        ({
            let signed = env.auth.all || env.auth.signers@.contains(caller);
            let in_role = env.access.admin == Some(caller) || (env.access.roles@.contains_key(
                (role, caller),
            ) && env.access.roles@[(role, caller)]);
            let capable = env.access.admin == Some(caller) || (env.access.capabilities@.contains_key(
                (cap, caller),
            ) && env.access.capabilities@[(cap, caller)]);
            &&& role_refusal(env, caller, role) is None <==> env.access.admin is Some && in_role
                && signed
            &&& env.access.admin is None ==> role_refusal(env, caller, role) == Some(
                ContractError::Code(ErrorCode::NotInitialized),
            )
            &&& env.access.admin is Some && !in_role ==> role_refusal(env, caller, role) == Some(
                ContractError::Code(ErrorCode::Unauthorized),
            )
            &&& env.access.admin is Some && in_role && !signed ==> role_refusal(env, caller, role)
                == Some(ContractError::AuthRequired(caller))
            &&& capability_refusal(env, caller, cap) is None <==> capable && signed
            &&& !capable ==> capability_refusal(env, caller, cap) == Some(
                ContractError::Code(ErrorCode::Unauthorized),
            )
            &&& capable && !signed ==> capability_refusal(env, caller, cap) == Some(
                ContractError::AuthRequired(caller),
            )
        }),
{
}

/// Each duty is open to the admin and to those who were granted its own
/// capability; the register of attestors and the cache also to those in their
/// role.
pub proof fn duties_have_their_delegates(env: Ledger, a: Address)
    ensures
        ({
            let admin = env.access.admin == Some(a);
            let may = |cap: AdminCapability|
                env.access.capabilities@.contains_key((cap, a)) && env.access.capabilities@[(cap, a)];
            let plays = |role: AdminRole|
                env.access.roles@.contains_key((role, a)) && env.access.roles@[(role, a)];
            &&& entrusted(env, Duty::Upgrade, a) <==> admin || may(AdminCapability::UpgradeContract)
            &&& entrusted(env, Duty::Migrate, a) <==> admin || may(AdminCapability::MigrateSchema)
            &&& entrusted(env, Duty::CacheSettings, a) <==> admin || may(
                AdminCapability::SetCacheConfig,
            )
            &&& entrusted(env, Duty::Attestors, a) <==> admin || plays(AdminRole::AttestorAdmin)
                || may(AdminCapability::ManageAttestors)
            &&& entrusted(env, Duty::CacheEntries, a) <==> admin || plays(AdminRole::CacheAdmin)
                || may(AdminCapability::ManageCacheEntries)
            &&& entrusted(env, Duty::TokenSettings, a) <==> admin || may(
                AdminCapability::SetJwtConfig,
            )
            &&& entrusted(env, Duty::AnchorMetadata, a) <==> admin || may(
                AdminCapability::ManageAnchorMetadata,
            )
        }),
{
}

/// A call carries out a duty exactly where there is an admin, and the admin or
/// one entrusted with the duty has signed it. What is said otherwise depends on
/// the duty.
pub proof fn duties_are_signed(env: Ledger, duty: Duty, a: Address)
    ensures
        env.access.admin is None ==> duty_refusal(env, duty) == Some(
            ContractError::Code(ErrorCode::NotInitialized),
        ),
        env.access.admin is Some && env.auth.signers@.contains(a) && entrusted(env, duty, a)
            ==> duty_refusal(env, duty) is None,
        env.access.admin is Some && env.auth.all ==> duty_refusal(env, duty) is None,
        env.access.admin == Some(a) && env.auth.signers@.contains(a) ==> duty_refusal(env, duty)
            is None,
        env.access.admin is Some && !env.auth.all && (forall|x: Address| #[trigger]
            env.auth.signers@.contains(x) ==> !entrusted(env, duty, x)) ==> duty_refusal(env, duty)
            is Some,
        unsigned_duty(duty, a) == (if duty == Duty::Upgrade || duty == Duty::CacheSettings || duty
            == Duty::Attestors {
            ContractError::Code(ErrorCode::UnauthorizedAttestor)
        } else {
            ContractError::AuthRequired(a)
        }),
{
    if env.access.admin is Some {
        crate::contract::access::duties_are_open_to_delegates(env, duty, env.access.admin->0);
    }
}

/// A caller carries out a duty by its own name exactly where it is entrusted with
/// it and has signed the call.
pub proof fn delegates_sign(env: Ledger, caller: Address, duty: Duty)
    ensures
        delegate_refusal(env, caller, duty) is None <==> env.access.admin is Some && entrusted(
            env,
            duty,
            caller,
        ) && (env.auth.all || env.auth.signers@.contains(caller)),
        env.access.admin is None ==> delegate_refusal(env, caller, duty) == Some(
            ContractError::Code(ErrorCode::NotInitialized),
        ),
        env.access.admin is Some && !entrusted(env, duty, caller) ==> delegate_refusal(
            env,
            caller,
            duty,
        ) == Some(ContractError::Code(ErrorCode::Unauthorized)),
{
}

/// An address counts as an attestor exactly while it is registered; one that was
/// revoked is told apart from one that never was registered.
pub proof fn attestors_are_registered(env: Ledger, a: Address)
    ensures
        attestor_refusal(env, a) is None <==> env.attestors.registered@.contains_key(a),
        !env.attestors.registered@.contains_key(a) && env.attestors.revocations@.contains_key(a)
            ==> attestor_refusal(env, a) == Some(ContractError::Code(ErrorCode::AttestorRevoked)),
        !env.attestors.registered@.contains_key(a) && !env.attestors.revocations@.contains_key(a)
            ==> attestor_refusal(env, a) == Some(
            ContractError::Code(ErrorCode::AttestorNotRegistered),
        ),
{
}

/// A migration is taken exactly where the contract is initialised, the duty is
/// carried out by one entrusted with it, the version is one or two and newer than
/// the one in force, and a batch of some size is given where quotes have to be
/// rewritten. A version that is not known is told apart.
pub proof fn migrations_go_forward(env: Ledger, target: u32, batch_size: u32)
    ensures
        ({
            let r = migrate_refusal(env, target, batch_size);
            let rewrites = target >= 2 && (env.access.schema_version < 2
                || env.quotes.migration_cursor is Some);
            let free = duty_refusal(env, Duty::Migrate);
            &&& rewrites_quotes(env, target) <==> rewrites
            &&& r is None <==> env.access.initialized && free is None && env.access.schema_version
                < target && 0 < target <= 2 && (rewrites ==> batch_size > 0)
            &&& !env.access.initialized ==> r == Some(
                ContractError::Code(ErrorCode::NotInitialized),
            )
            &&& env.access.initialized && free is Some ==> r == free
            &&& env.access.initialized && free is None && target > 2 ==> r == Some(
                ContractError::Code(ErrorCode::UnsupportedCapabilityVersion),
            )
            &&& env.access.initialized && free is None && target <= 2 && r is Some ==> r == Some(
                ContractError::Code(ErrorCode::ValidationError),
            )
        }),
{
}

/// A migration leaves the version that it went to in force, and a record of where
/// it came from, where it went to and when, behind all earlier ones.
pub proof fn migrations_are_recorded(before: AccessState, after: AccessState, target: u32, now: u64)
    requires
        version_advanced(before, after, target, now),
    ensures
        after.schema_version == target,
        after.migrations@.len() == before.migrations@.len() + 1,
        after.migrations@.last().from_version == before.schema_version,
        after.migrations@.last().to_version == target,
        after.migrations@.last().migrated_at == now,
        forall|i: int|
            0 <= i < before.migrations@.len() ==> #[trigger] after.migrations@[i]
                == before.migrations@[i],
        after.admin == before.admin,
        after.roles == before.roles,
        after.capabilities == before.capabilities,
{
}

/// Before any upgrade the contract is at version 0.1.0; afterwards it is at the
/// one on record.
pub proof fn versions_are_on_record(env: Ledger)
    ensures
        env.access.version is Some ==> version_in(env) == env.access.version->0,
        env.access.version is None ==> version_in(env).major == 0 && version_in(env).minor == 1
            && version_in(env).patch == 0 && version_in(env).upgraded_at == 0,
{
}

/// A hash counts as missing exactly where all its bytes are zero.
pub proof fn hashes_are_missing_where_all_is_zero(h: [u8; 32], i: int)
    requires
        0 <= i < 32,
    ensures
        h@[i] != 0 ==> !is_zero_hash(h),
        h@ == Seq::new(32, |k: int| 0u8) ==> is_zero_hash(h),
{
}

/// Roles and capabilities go by their own names.
pub proof fn grants_have_names(role: AdminRole, cap: AdminCapability)
    ensures
        role == AdminRole::KycAdmin <==> name_of_role(role) == "KycAdmin"@,
        role == AdminRole::AttestorAdmin <==> name_of_role(role) == "AttestorAdmin"@,
        role == AdminRole::CacheAdmin <==> name_of_role(role) == "CacheAdmin"@,
        cap == AdminCapability::UpgradeContract ==> name_of_capability(cap) == "UpgradeContract"@,
        cap == AdminCapability::MigrateSchema ==> name_of_capability(cap) == "MigrateSchema"@,
        cap == AdminCapability::SetCacheConfig ==> name_of_capability(cap) == "SetCacheConfig"@,
        cap == AdminCapability::ManageAttestors ==> name_of_capability(cap) == "ManageAttestors"@,
        cap == AdminCapability::ManageKyc ==> name_of_capability(cap) == "ManageKyc"@,
        cap == AdminCapability::ManageCacheEntries ==> name_of_capability(cap)
            == "ManageCacheEntries"@,
        cap == AdminCapability::ToggleServices ==> name_of_capability(cap) == "ToggleServices"@,
        cap == AdminCapability::SetRateLimits ==> name_of_capability(cap) == "SetRateLimits"@,
        cap == AdminCapability::SetJwtConfig ==> name_of_capability(cap) == "SetJwtConfig"@,
        cap == AdminCapability::ManageAnchorMetadata ==> name_of_capability(cap)
            == "ManageAnchorMetadata"@,
{
    reveal_strlit("KycAdmin");
    reveal_strlit("AttestorAdmin");
    reveal_strlit("CacheAdmin");
    assert("KycAdmin"@.len() == 8);
    assert("AttestorAdmin"@.len() == 13);
    assert("CacheAdmin"@.len() == 10);
}

/// The log of a grant names the admin, what was done, to whom, and what was held
/// before and after.
pub proof fn grants_are_logged(
    entry: AdminAction,
    admin: Address,
    action: Seq<char>,
    grantee: Address,
    before: Seq<char>,
    after: Seq<char>,
)
    requires
        logs_grant(entry, admin, action, grantee, before, after),
    ensures
        entry.actor == admin,
        entry.action@ == action,
        entry.target == AdminTarget::Account(grantee),
        entry.before@ == before,
        entry.after matches AdminOutcome::Label(text) && text@ == after,
{
}

} // verus!
