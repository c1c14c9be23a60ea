//! Laws of the register of attestors.
use crate::address::Address;
use crate::contract::attestors::{
    attestor_added, attestor_revoked, jwt_max_len_in, jwt_skew_in, profile_of, profile_refusal,
    register_full, register_refusal, registrar_refusal, revocation_announced, token_refusal,
    unregistered_refusal,
};
use crate::contract::events::Event;
use crate::contract::ledger::{
    attestor_refusal, duty_refusal, AttestorState, ContractError, Duty, Ledger,
};
use crate::errors::ErrorCode;
use vstd::prelude::*;

verus! {

/// An attestor is registered exactly where a token is given and has verified under
/// a key of its issuer, a registrar has authorised it, the register has room, the
/// attestor is not in it, and the contract has an admin. The first of these that
/// fails is what the registration is refused for.
pub proof fn registrations_are_checked(
    env: Ledger,
    attestor: Address,
    token: Seq<char>,
    issuer: Address,
    verified: bool,
)
    ensures
        ({
            let r = register_refusal(env, attestor, token, issuer, verified);
            let allowed = registrar_refusal(env, attestor);
            let max = match env.config.capacity {
                Some(c) => c.max_attestors,
                None => 1000,
            };
            let sound = env.attestors.sep10_keys@.contains_key(issuer) && verified;
            let full = env.attestors.count >= max;
            let known = env.attestors.registered@.contains_key(attestor);
            &&& r is None <==> token.len() > 0 && allowed is None && sound && !full && !known
                && env.access.admin is Some
            &&& token.len() == 0 ==> r == Some(ContractError::Code(ErrorCode::ValidationError))
            &&& token.len() > 0 && allowed is Some ==> r == allowed
            &&& token.len() > 0 && allowed is None && !sound ==> r == Some(
                ContractError::Code(ErrorCode::InvalidSep10Token),
            )
            &&& token.len() > 0 && allowed is None && sound && full ==> r == Some(
                ContractError::Code(ErrorCode::AttestorCapacityExceeded),
            )
            &&& token.len() > 0 && allowed is None && sound && !full && known ==> r == Some(
                ContractError::Code(ErrorCode::AttestorAlreadyRegistered),
            )
        }),
{
}

/// The register is full exactly where it counts as many attestors as are allowed:
/// a thousand unless another number was set.
pub proof fn the_register_has_a_capacity(env: Ledger)
    ensures
        ({
            let max = match env.config.capacity {
                Some(c) => c.max_attestors,
                None => 1000,
            };
            &&& register_full(env) is None <==> env.attestors.count < max
            &&& register_full(env) is Some ==> register_full(env) == Some(
                ContractError::Code(ErrorCode::AttestorCapacityExceeded),
            )
        }),
{
}

/// An address that is entrusted with the register registers itself by its own
/// signature; every other one is registered by those who are.
pub proof fn registrars_sign(env: Ledger, attestor: Address)
    ensures
        ({
            let trusted = env.access.admin == Some(attestor) || (env.access.roles@.contains_key(
                (crate::contract::types::AdminRole::AttestorAdmin, attestor),
            ) && env.access.roles@[(crate::contract::types::AdminRole::AttestorAdmin, attestor)]) || (
            env.access.capabilities@.contains_key(
                (crate::contract::types::AdminCapability::ManageAttestors, attestor),
            ) && env.access.capabilities@[(
                crate::contract::types::AdminCapability::ManageAttestors,
                attestor,
            )]);
            let signed = env.auth.all || env.auth.signers@.contains(attestor);
            &&& trusted && signed ==> registrar_refusal(env, attestor) is None
            &&& trusted && !signed ==> registrar_refusal(env, attestor) == Some(
                ContractError::Code(ErrorCode::UnauthorizedAttestor),
            )
            &&& !trusted ==> registrar_refusal(env, attestor) == duty_refusal(env, Duty::Attestors)
        }),
{
}

/// A registered attestor is one from then on, with the key it was registered
/// with; it is counted and listed, and nobody else's place or key changes.
pub proof fn registered_attestors_are_known(
    before: Ledger,
    after: Ledger,
    attestor: Address,
    public_key: [u8; 32],
    other: Address,
)
    requires
        attestor_added(before.attestors, after.attestors, attestor, public_key),
        before.attestors.count < u64::MAX,
    ensures
        attestor_refusal(after, attestor) is None,
        after.attestors.registered@[attestor],
        after.attestors.public_keys@.contains_key(attestor),
        after.attestors.public_keys@[attestor] == public_key,
        after.attestors.count == before.attestors.count + 1,
        after.attestors.list@.contains(attestor),
        !before.attestors.list@.contains(attestor) ==> after.attestors.list@
            == before.attestors.list@.push(attestor),
        other != attestor ==> {
            &&& after.attestors.registered@.contains_key(other)
                == before.attestors.registered@.contains_key(other)
            &&& after.attestors.public_keys@.contains_key(other)
                == before.attestors.public_keys@.contains_key(other)
            &&& after.attestors.public_keys@[other] == before.attestors.public_keys@[other]
        },
{
    if !before.attestors.list@.contains(attestor) {
        assert(after.attestors.list@[after.attestors.list@.len() - 1] == attestor);
    }
}

/// Only a registered attestor with a key can be revoked.
pub proof fn only_the_registered_are_revoked(a: AttestorState, attestor: Address)
    ensures
        unregistered_refusal(a, attestor) is None <==> a.registered@.contains_key(attestor)
            && a.public_keys@.contains_key(attestor),
        unregistered_refusal(a, attestor) is Some ==> unregistered_refusal(a, attestor) == Some(
            ContractError::Code(ErrorCode::AttestorNotRegistered),
        ),
{
}

/// A revoked attestor is neither registered nor has a key; the revocation is on
/// record with the key, the time and the one who revoked. It is no longer counted,
/// and nobody else's place or key changes.
pub proof fn revoked_attestors_are_dropped(
    before: Ledger,
    after: AttestorState,
    attestor: Address,
    by: Address,
    other: Address,
)
    requires
        attestor_revoked(before, after, attestor, by),
    ensures
        !after.registered@.contains_key(attestor),
        !after.public_keys@.contains_key(attestor),
        before.attestors.count > 0 ==> after.count == before.attestors.count - 1,
        after.revocations@[attestor].attestor == attestor,
        after.revocations@[attestor].public_key == before.attestors.public_keys@[attestor],
        after.revocations@[attestor].revoked_at == before.clock.timestamp,
        after.revocations@[attestor].revoked_by == by,
        !after.revocations@[attestor].reactivated,
        other != attestor ==> {
            &&& after.registered@.contains_key(other) == before.attestors.registered@.contains_key(
                other,
            )
            &&& after.public_keys@.contains_key(other) == before.attestors.public_keys@.contains_key(
                other,
            )
            &&& after.public_keys@[other] == before.attestors.public_keys@[other]
        },
        revocation_announced(attestor, by, before.clock.timestamp) matches Event::AttestorRemoved(e)
            && e.attestor == attestor && e.revoked_by == by && e.timestamp
            == before.clock.timestamp,
{
}

/// A token passes exactly where its issuer has a key and it has verified.
pub proof fn tokens_are_verified(env: Ledger, issuer: Address, verified: bool)
    ensures
        token_refusal(env, issuer, verified) is None <==> env.attestors.sep10_keys@.contains_key(
            issuer,
        ) && verified,
        token_refusal(env, issuer, verified) is Some ==> token_refusal(env, issuer, verified) == Some(
            ContractError::Code(ErrorCode::InvalidSep10Token),
        ),
{
}

/// Tokens may be 2048 characters long and clocks may differ by a minute, unless
/// something else was set.
pub proof fn tokens_have_limits(env: Ledger)
    ensures
        env.config.jwt_max_len is None ==> jwt_max_len_in(env) == 2048,
        env.config.jwt_max_len is Some ==> jwt_max_len_in(env) == env.config.jwt_max_len->0,
        env.config.jwt_skew is None ==> jwt_skew_in(env) == 60,
        env.config.jwt_skew is Some ==> jwt_skew_in(env) == env.config.jwt_skew->0,
{
}

/// A profile is changed exactly by its own attestor, who is registered and has
/// signed the call, to an address that is in order.
pub proof fn profiles_are_changed_by_their_owner(env: Ledger, attestor: Address, url_valid: bool)
    ensures
        profile_refusal(env, attestor, url_valid) is None <==> {
            &&& env.auth.all || env.auth.signers@.contains(attestor)
            &&& env.attestors.registered@.contains_key(attestor)
            &&& url_valid
        },
        (env.auth.all || env.auth.signers@.contains(attestor))
            && env.attestors.registered@.contains_key(attestor) && !url_valid ==> profile_refusal(
            env,
            attestor,
            url_valid,
        ) == Some(ContractError::Code(ErrorCode::InvalidEndpointFormat)),
{
}

/// An attestor without a profile has neither endpoint nor webhook, offers nothing
/// and is enabled.
pub proof fn profiles_start_empty(env: Ledger, attestor: Address)
    requires
        !env.attestors.profiles@.contains_key(attestor),
    ensures
        profile_of(env, attestor).attestor == attestor,
        profile_of(env, attestor).endpoint.len() == 0,
        profile_of(env, attestor).webhook_url.len() == 0,
        profile_of(env, attestor).services.len() == 0,
        profile_of(env, attestor).enabled,
{
}

} // verus!
