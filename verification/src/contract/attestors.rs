//! Attestors: registration, revocation, and their profiles.
use crate::address::{strkey_text, Address};
use crate::contract::anchors::{lists_address, with_anchor};
use crate::contract::events::{
    AttestorReactivatedEvent, AttestorRegisteredEvent, AttestorRevokedEvent, EndpointUpdated, Event,
    WebhookRegisteredEvent,
};
use crate::contract::ledger::{
    admin_refusal, entrusted, attestor_refusal, auth_refusal, either, follows, duty_refusal,
    refuse_when, delegate_refusal, AdminAction, AdminOutcome, AdminTarget, AnchorKitContract,
    AttestorState, ConfigState, ContractError, Duty, Ledger,
};
use crate::contract::sessions::{
    can_log, open_refusal, opened_sessions, operation_announced, operation_logged,
};
use crate::contract::settings::capacity_in;
use crate::contract::types::{
    AttestorProfile, AttestorRevocationRecord, Bytes, DEFAULT_CLOCK_SKEW, MAX_JWT_LEN,
    MAX_JWT_MAX_LEN, MIN_JWT_MAX_LEN,
};
use crate::errors::ErrorCode;
use crate::lists::pushed_once;
use crate::service_management::copy_codes;
use vstd::prelude::*;
use vstd::string::*;

verus! {

/// The length of a verifying key in bytes.
pub const KEY_BYTES: usize = 32;

/// The longest clock skew, in seconds.
pub const MAX_CLOCK_SKEW: u64 = 300;

/// The greatest length of a token.
pub open spec fn jwt_max_len_in(env: Ledger) -> u32 {
    match env.config.jwt_max_len {
        Some(n) => n,
        None => MAX_JWT_LEN,
    }
}

/// The tolerance of the clock for tokens, in seconds.
pub open spec fn jwt_skew_in(env: Ledger) -> u64 {
    match env.config.jwt_skew {
        Some(n) => n,
        None => DEFAULT_CLOCK_SKEW,
    }
}

/// The refusal of a token: of an issuer without a key, or one that does not
/// verify.
pub open spec fn token_refusal(env: Ledger, issuer: Address, token_verified: bool) -> Option<
    ContractError,
> {
    refuse_when(
        !env.attestors.sep10_keys@.contains_key(issuer) || !token_verified,
        ErrorCode::InvalidSep10Token,
    )
}

/// The refusal of a registration that neither the attestor, where it may
/// register itself, nor the admin has authorised.
pub open spec fn registrar_refusal(env: Ledger, attestor: Address) -> Option<ContractError> {
    if entrusted(env, Duty::Attestors, attestor) {
        refuse_when(!env.auth.covers(attestor), ErrorCode::UnauthorizedAttestor)
    } else {
        duty_refusal(env, Duty::Attestors)
    }
}

/// The refusal of one more attestor where the register is full.
pub open spec fn register_full(env: Ledger) -> Option<ContractError> {
    refuse_when(
        env.attestors.count >= capacity_in(env).max_attestors,
        ErrorCode::AttestorCapacityExceeded,
    )
}

/// Why a registration is refused.
pub open spec fn register_refusal(
    env: Ledger,
    attestor: Address,
    token: Seq<char>,
    issuer: Address,
    token_verified: bool,
) -> Option<ContractError> {
    either(
        refuse_when(token.len() == 0, ErrorCode::ValidationError),
        either(
            registrar_refusal(env, attestor),
            either(
                token_refusal(env, issuer, token_verified),
                either(
                    register_full(env),
                    either(
                        refuse_when(
                            env.attestors.registered@.contains_key(attestor),
                            ErrorCode::AttestorAlreadyRegistered,
                        ),
                        refuse_when(env.access.admin is None, ErrorCode::NotInitialized),
                    ),
                ),
            ),
        ),
    )
}

/// The attestors after one was added with its key, and counted.
pub open spec fn attestor_added(
    before: AttestorState,
    after: AttestorState,
    attestor: Address,
    public_key: [u8; 32],
) -> bool {
    &&& after == (AttestorState {
        registered: after.registered,
        public_keys: after.public_keys,
        list: after.list,
        count: (before.count + 1) as u64,
        revocations: after.revocations,
        ..before
    })
    &&& after.registered@ == before.registered@.insert(attestor, true)
    &&& after.public_keys@ == before.public_keys@.insert(attestor, public_key)
    &&& after.list@ == with_anchor(before.list@, attestor)
}

/// The list without the first occurrence of an address.
pub open spec fn drops_first(before: Seq<Address>, after: Seq<Address>, a: Address) -> bool {
    if before.contains(a) {
        exists|i: int| #[trigger] is_first(before, a, i) && after == before.remove(i)
    } else {
        after == before
    }
}

/// Whether an address occurs first at a position.
pub open spec fn is_first(list: Seq<Address>, a: Address, i: int) -> bool {
    0 <= i < list.len() && list[i] == a && forall|j: int| 0 <= j < i ==> list[j] != a
}

/// The entry of a change of an attestor in the administrative log.
pub open spec fn attestor_entry(
    actor: Address,
    action: &'static str,
    attestor: Address,
    before: &'static str,
    after: &'static str,
) -> AdminAction {
    AdminAction {
        actor,
        action,
        target: AdminTarget::Account(attestor),
        before,
        after: AdminOutcome::Label(after),
    }
}

/// Whether an attestor is on record as revoked and not restored.
pub open spec fn on_record(a: AttestorState, attestor: Address) -> bool {
    a.revocations@.contains_key(attestor) && !a.revocations@[attestor].reactivated
}

/// The refusal of a revocation: of one who is not registered, or has no key.
pub open spec fn unregistered_refusal(a: AttestorState, attestor: Address) -> Option<ContractError> {
    refuse_when(
        !a.registered@.contains_key(attestor) || !a.public_keys@.contains_key(attestor),
        ErrorCode::AttestorNotRegistered,
    )
}

/// The announcement of a revocation.
pub open spec fn revocation_announced(attestor: Address, by: Address, now: u64) -> Event {
    Event::AttestorRemoved(AttestorRevokedEvent { attestor, revoked_by: by, timestamp: now })
}

/// Whether `record` is the record of a revocation.
pub open spec fn is_revocation(
    record: AttestorRevocationRecord,
    attestor: Address,
    now: u64,
    by: Address,
    public_key: [u8; 32],
) -> bool {
    &&& record.attestor == attestor
    &&& record.revoked_at == now
    &&& record.revoked_by == by
    &&& record.reason@.len() == 0
    &&& record.public_key == public_key
    &&& !record.reactivated
    &&& record.reactivated_at == 0
}

/// The attestors after one was revoked: its registration and its key are
/// dropped, the revocation is on record with the key, and the list and the
/// count follow.
pub open spec fn attestor_revoked(
    before: Ledger,
    after: AttestorState,
    attestor: Address,
    by: Address,
) -> bool {
    let b = before.attestors;
    &&& after == (AttestorState {
        registered: after.registered,
        public_keys: after.public_keys,
        revocations: after.revocations,
        list: after.list,
        count: if b.count > 0 {
            (b.count - 1) as u64
        } else {
            0
        },
        ..b
    })
    &&& after.registered@ == b.registered@.remove(attestor)
    &&& after.public_keys@ == b.public_keys@.remove(attestor)
    &&& after.revocations@ == b.revocations@.insert(attestor, after.revocations@[attestor])
    &&& is_revocation(
        after.revocations@[attestor],
        attestor,
        before.clock.timestamp,
        by,
        b.public_keys@[attestor],
    )
    &&& drops_first(b.list@, after.list@, attestor)
}

/// What is known of an attestor.
pub struct ProfileView {
    pub attestor: Address,
    pub endpoint: Seq<char>,
    pub webhook_url: Seq<char>,
    pub services: Seq<u32>,
    pub enabled: bool,
    pub updated_at: u64,
}

impl View for AttestorProfile {
    type V = ProfileView;

    open spec fn view(&self) -> ProfileView {
        ProfileView {
            attestor: self.attestor,
            endpoint: self.endpoint@,
            webhook_url: self.webhook_url@,
            services: self.services@,
            enabled: self.enabled,
            updated_at: self.updated_at,
        }
    }
}

/// The profile of an attestor; an empty one where none was stored.
pub open spec fn profile_of(env: Ledger, attestor: Address) -> ProfileView {
    if env.attestors.profiles@.contains_key(attestor) {
        env.attestors.profiles@[attestor]@
    } else {
        ProfileView {
            attestor,
            endpoint: Seq::empty(),
            webhook_url: Seq::empty(),
            services: Seq::empty(),
            enabled: true,
            updated_at: 0,
        }
    }
}

/// Why a change of a profile is refused.
pub open spec fn profile_refusal(env: Ledger, attestor: Address, url_valid: bool) -> Option<
    ContractError,
> {
    either(
        auth_refusal(env, attestor),
        either(
            attestor_refusal(env, attestor),
            refuse_when(!url_valid, ErrorCode::InvalidEndpointFormat),
        ),
    )
}

/// The attestors after the profile of one was replaced.
pub open spec fn profile_replaced(
    before: AttestorState,
    after: AttestorState,
    attestor: Address,
    profile: ProfileView,
) -> bool {
    &&& after == (AttestorState { profiles: after.profiles, ..before })
    &&& after.profiles@ == before.profiles@.insert(attestor, after.profiles@[attestor])
    &&& after.profiles@[attestor]@ == profile
}

/// Why a key for tokens is refused.
pub open spec fn token_key_refusal(env: Ledger, public_key: Bytes) -> Option<ContractError> {
    either(
        duty_refusal(env, Duty::TokenSettings),
        refuse_when(public_key@.len() != KEY_BYTES, ErrorCode::ValidationError),
    )
}

/// The ledger after the key for the tokens of an issuer was set.
pub open spec fn token_key_set(
    before: Ledger,
    after: Ledger,
    issuer: Address,
    public_key: Bytes,
) -> bool {
    &&& after == (Ledger {
        attestors: AttestorState {
            sep10_keys: after.attestors.sep10_keys,
            ..before.attestors
        },
        ..before
    })
    &&& after.attestors.sep10_keys@ == before.attestors.sep10_keys@.insert(
        issuer,
        public_key,
    )
}

/// Why a key for tokens cannot be replaced.
pub open spec fn rotation_refusal(env: Ledger, new_public_key: Bytes) -> Option<ContractError> {
    either(
        duty_refusal(env, Duty::TokenSettings),
        refuse_when(new_public_key@.len() != KEY_BYTES, ErrorCode::ValidationError),
    )
}

/// The ledger after the key for the tokens of an issuer was replaced.
pub open spec fn token_key_rotated(
    before: Ledger,
    after: Ledger,
    issuer: Address,
    new_public_key: Bytes,
) -> bool {
    let had = before.attestors.sep10_keys@.contains_key(issuer);
    let kept = after.attestors.old_sep10_keys@[issuer];
    &&& after == (Ledger {
        attestors: AttestorState {
            sep10_keys: after.attestors.sep10_keys,
            old_sep10_keys: after.attestors.old_sep10_keys,
            ..before.attestors
        },
        events: after.events,
        ..before
    })
    &&& after.attestors.sep10_keys@ == before.attestors.sep10_keys@.insert(
        issuer,
        new_public_key,
    )
    &&& !had ==> after.attestors.old_sep10_keys == before.attestors.old_sep10_keys
    &&& had ==> after.attestors.old_sep10_keys@ == before.attestors.old_sep10_keys@.insert(issuer, kept) && kept@ == before.attestors.sep10_keys@[issuer]@
    &&& after.events@ == before.events@.push(Event::Sep10KeyRotated(issuer))
}

/// Why a greatest length of a token is refused.
pub open spec fn token_length_refusal(env: Ledger, max_len: u32) -> Option<ContractError> {
    either(
        duty_refusal(env, Duty::TokenSettings),
        refuse_when(
            max_len < MIN_JWT_MAX_LEN || max_len > MAX_JWT_MAX_LEN,
            ErrorCode::ValidationError,
        ),
    )
}

/// The ledger after the greatest length of a token was set.
pub open spec fn token_length_set(before: Ledger, after: Ledger, max_len: u32) -> bool {
    after == (Ledger {
        config: ConfigState { jwt_max_len: Some(max_len), ..before.config },
        ..before
    })
}

/// Why a tolerance of the clock is refused.
pub open spec fn token_skew_refusal(env: Ledger, skew_seconds: u64) -> Option<ContractError> {
    either(
        duty_refusal(env, Duty::TokenSettings),
        refuse_when(skew_seconds > MAX_CLOCK_SKEW, ErrorCode::ValidationError),
    )
}

/// The ledger after the tolerance of the clock was set.
pub open spec fn token_skew_set(before: Ledger, after: Ledger, skew_seconds: u64) -> bool {
    after == (Ledger {
        config: ConfigState { jwt_skew: Some(skew_seconds), ..before.config },
        ..before
    })
}

/// The ledger after the index of token ids was purged.
pub open spec fn token_ids_purged(before: Ledger, after: Ledger) -> bool {
    &&& after == (Ledger {
        attestors: AttestorState {
            jti_index: after.attestors.jti_index,
            ..before.attestors
        },
        ..before
    })
    &&& after.attestors.jti_index@.map_values(|b: Bytes| b@) == before.attestors.jti_index@.map_values(|b: Bytes| b@).filter(
        |k: Seq<u8>| before.attestors.jtis@.contains_key(k),
    )
}

/// The ledger after an attestor was registered.
pub open spec fn registered_by_admin(
    before: Ledger,
    after: Ledger,
    attestor: Address,
    public_key: [u8; 32],
) -> bool {
    &&& after == (Ledger {
        attestors: after.attestors,
        admin_log: after.admin_log,
        events: after.events,
        ..before
    })
    &&& attestor_added(
        before.attestors,
        after.attestors,
        attestor,
        public_key,
    )
    &&& after.attestors.revocations == before.attestors.revocations
    &&& after.admin_log@ == before.admin_log@.push(
        attestor_entry(
            before.access.admin->0,
            "register_attestor",
            attestor,
            "",
            "registered",
        ),
    )
    &&& after.events@ == before.events@.push(
        Event::AttestorAdded(
            AttestorRegisteredEvent {
                attestor,
                timestamp: before.clock.timestamp,
            },
        ),
    )
}

/// Why an attestor cannot be revoked.
pub open spec fn revoke_refusal(env: Ledger, attestor: Address) -> Option<ContractError> {
    either(
        duty_refusal(env, Duty::Attestors),
        unregistered_refusal(env.attestors, attestor),
    )
}

/// The ledger after an attestor was revoked.
pub open spec fn revoked_by_admin(before: Ledger, after: Ledger, attestor: Address) -> bool {
    let admin = before.access.admin->0;
    let entry = attestor_entry(
        admin,
        "revoke_attestor",
        attestor,
        "registered",
        "revoked",
    );
    &&& after == (Ledger {
        attestors: after.attestors,
        admin_log: after.admin_log,
        events: after.events,
        ..before
    })
    &&& attestor_revoked(before, after.attestors, attestor, admin)
    &&& after.admin_log@ == before.admin_log@.push(entry).push(entry)
    &&& after.events@ == before.events@.push(
        revocation_announced(attestor, admin, before.clock.timestamp),
    )
}

/// Why an attestor cannot be restored.
pub open spec fn restore_refusal(env: Ledger, attestor: Address) -> Option<ContractError> {
    either(
        duty_refusal(env, Duty::Attestors),
        either(
            refuse_when(
                env.attestors.registered@.contains_key(attestor),
                ErrorCode::AttestorAlreadyRegistered,
            ),
            either(
                refuse_when(
                    !env.attestors.revocations@.contains_key(attestor),
                    ErrorCode::AttestorNotRegistered,
                ),
                register_full(env),
            ),
        ),
    )
}

/// The ledger after a revoked attestor was restored.
pub open spec fn restored_by_admin(before: Ledger, after: Ledger, attestor: Address) -> bool {
    let admin = before.access.admin->0;
    let record = before.attestors.revocations@[attestor];
    let now = before.clock.timestamp;
    &&& after == (Ledger {
        attestors: after.attestors,
        admin_log: after.admin_log,
        events: after.events,
        ..before
    })
    &&& attestor_added(
        before.attestors,
        after.attestors,
        attestor,
        record.public_key,
    )
    &&& after.attestors.revocations@ == before.attestors.revocations@.insert(
        attestor,
        (AttestorRevocationRecord { reactivated: true, reactivated_at: now, ..record }),
    )
    &&& after.admin_log@ == before.admin_log@.push(
        attestor_entry(
            admin,
            "reactivate_attestor",
            attestor,
            "revoked",
            "registered",
        ),
    )
    &&& after.events@ == before.events@.push(
        Event::AttestorRestored(
            AttestorReactivatedEvent {
                attestor,
                reactivated_by: admin,
                timestamp: now,
            },
        ),
    )
}

/// Why an attestor cannot be registered within a session.
pub open spec fn session_register_refusal(
    env: Ledger,
    operator: Address,
    session_id: u64,
    attestor: Address,
) -> Option<ContractError> {
    either(
        delegate_refusal(env, operator, Duty::Attestors),
        either(
            open_refusal(env, session_id),
            either(
                refuse_when(
                    env.attestors.registered@.contains_key(attestor),
                    ErrorCode::AttestorAlreadyRegistered,
                ),
                register_full(env),
            ),
        ),
    )
}

/// The ledger after an attestor was registered within a session.
pub open spec fn registered_in_session(
    before: Ledger,
    after: Ledger,
    operator: Address,
    session_id: u64,
    attestor: Address,
    public_key: [u8; 32],
) -> bool {
    &&& after == (Ledger {
        attestors: after.attestors,
        sessions: after.sessions,
        events: after.events,
        ..before
    })
    &&& attestor_added(
        before.attestors,
        after.attestors,
        attestor,
        public_key,
    )
    &&& after.attestors.revocations == before.attestors.revocations
    &&& after.sessions.records@ == opened_sessions(before, session_id)
    &&& operation_logged(
        before,
        after.sessions,
        session_id,
        operator,
        "register"@,
        0,
    )
    &&& after.events@ == before.events@.push(
        Event::AttestorAdded(
            AttestorRegisteredEvent {
                attestor,
                timestamp: before.clock.timestamp,
            },
        ),
    ).push(operation_announced(before, session_id, "register"))
}

/// Why an attestor cannot be revoked within a session.
pub open spec fn session_revoke_refusal(
    env: Ledger,
    operator: Address,
    session_id: u64,
    attestor: Address,
) -> Option<ContractError> {
    either(
        delegate_refusal(env, operator, Duty::Attestors),
        either(
            open_refusal(env, session_id),
            unregistered_refusal(env.attestors, attestor),
        ),
    )
}

/// The ledger after an attestor was revoked within a session.
pub open spec fn revoked_in_session(
    before: Ledger,
    after: Ledger,
    operator: Address,
    session_id: u64,
    attestor: Address,
) -> bool {
    &&& after == (Ledger {
        attestors: after.attestors,
        sessions: after.sessions,
        events: after.events,
        ..before
    })
    &&& attestor_revoked(before, after.attestors, attestor, operator)
    &&& after.sessions.records@ == opened_sessions(before, session_id)
    &&& operation_logged(
        before,
        after.sessions,
        session_id,
        operator,
        "revoke"@,
        0,
    )
    &&& after.events@ == before.events@.push(
        revocation_announced(attestor, operator, before.clock.timestamp),
    ).push(operation_announced(before, session_id, "revoke"))
}

/// The ledger after the endpoint of an attestor was set.
pub open spec fn endpoint_set(
    before: Ledger,
    after: Ledger,
    attestor: Address,
    endpoint: String,
) -> bool {
    &&& after == (Ledger {
        attestors: after.attestors,
        admin_log: after.admin_log,
        events: after.events,
        ..before
    })
    &&& profile_replaced(
        before.attestors,
        after.attestors,
        attestor,
        (ProfileView {
            endpoint: endpoint@,
            updated_at: before.clock.timestamp,
            ..profile_of(before, attestor)
        }),
    )
    &&& after.admin_log@ == before.admin_log@.push(
        attestor_entry(attestor, "set_endpoint", attestor, "", "updated"),
    )
    &&& after.events@ == before.events@.push(
        Event::EndpointChanged(EndpointUpdated { attestor, endpoint }),
    )
}

/// The ledger after the address for events was set.
pub open spec fn webhook_set(
    before: Ledger,
    after: Ledger,
    attestor: Address,
    webhook_url: String,
) -> bool {
    &&& after == (Ledger {
        attestors: after.attestors,
        events: after.events,
        ..before
    })
    &&& profile_replaced(
        before.attestors,
        after.attestors,
        attestor,
        (ProfileView {
            webhook_url: webhook_url@,
            updated_at: before.clock.timestamp,
            ..profile_of(before, attestor)
        }),
    )
    &&& after.events@ == before.events@.push(
        Event::WebhookRegistered(
            WebhookRegisteredEvent {
                attestor,
                timestamp: before.clock.timestamp,
            },
        ),
    )
}

impl AnchorKitContract {
    /// Stores the key by which tokens of an issuer are verified.
    pub fn set_sep10_jwt_verifying_key(env: &mut Ledger, issuer: Address, public_key: Bytes) -> (r:
        Result<(), ContractError>)
        ensures
            follows(r, token_key_refusal(*old(env), public_key)),
            r is Err ==> *final(env) == *old(env),
            r is Ok ==> token_key_set(*old(env), *final(env), issuer, public_key),
    {
        if let Err(e) = env.require_duty(Duty::TokenSettings) {
            return Err(e);
        }
        if public_key.len() != KEY_BYTES {
            return Err(ContractError::Code(ErrorCode::ValidationError));
        }
        env.attestors.sep10_keys.set(issuer, public_key);
        Ok(())
    }

    /// Replaces the key of an issuer, and keeps the one before it.
    pub fn rotate_sep10_key(env: &mut Ledger, issuer: Address, new_public_key: Bytes) -> (r: Result<
        (),
        ContractError,
    >)
        ensures
            follows(r, rotation_refusal(*old(env), new_public_key)),
            r is Err ==> *final(env) == *old(env),
            r is Ok ==> token_key_rotated(*old(env), *final(env), issuer, new_public_key),
    {
        if let Err(e) = env.require_duty(Duty::TokenSettings) {
            return Err(e);
        }
        if new_public_key.len() != KEY_BYTES {
            return Err(ContractError::Code(ErrorCode::ValidationError));
        }
        let current = match env.attestors.sep10_keys.get(&issuer) {
            Some(k) => Some(k.copy()),
            None => None,
        };
        if let Some(k) = current {
            env.attestors.old_sep10_keys.set(issuer, k);
        }
        env.attestors.sep10_keys.set(issuer, new_public_key);
        env.publish(Event::Sep10KeyRotated(issuer));
        Ok(())
    }

    /// The key of an issuer.
    pub fn get_sep10_key(env: &Ledger, issuer: Address) -> (r: Option<&Bytes>)
        ensures
            match r {
                Some(k) => env.attestors.sep10_keys@.contains_key(issuer) && *k
                    == env.attestors.sep10_keys@[issuer],
                None => !env.attestors.sep10_keys@.contains_key(issuer),
            },
    {
        env.attestors.sep10_keys.get(&issuer)
    }

    /// Sets how long a token may be.
    pub fn set_jwt_max_len(env: &mut Ledger, max_len: u32) -> (r: Result<(), ContractError>)
        ensures
            follows(r, token_length_refusal(*old(env), max_len)),
            r is Err ==> *final(env) == *old(env),
            r is Ok ==> token_length_set(*old(env), *final(env), max_len),
    {
        if let Err(e) = env.require_duty(Duty::TokenSettings) {
            return Err(e);
        }
        if max_len < MIN_JWT_MAX_LEN || max_len > MAX_JWT_MAX_LEN {
            return Err(ContractError::Code(ErrorCode::ValidationError));
        }
        env.config.jwt_max_len = Some(max_len);
        Ok(())
    }

    /// How long a token may be.
    pub fn get_jwt_max_len(env: &Ledger) -> (n: u32)
        ensures
            n == jwt_max_len_in(*env),
    {
        match env.config.jwt_max_len {
            Some(n) => n,
            None => MAX_JWT_LEN,
        }
    }

    /// Sets by how many seconds clocks may differ.
    pub fn set_jwt_skew(env: &mut Ledger, skew_seconds: u64) -> (r: Result<(), ContractError>)
        ensures
            follows(r, token_skew_refusal(*old(env), skew_seconds)),
            r is Err ==> *final(env) == *old(env),
            r is Ok ==> token_skew_set(*old(env), *final(env), skew_seconds),
    {
        if let Err(e) = env.require_duty(Duty::TokenSettings) {
            return Err(e);
        }
        if skew_seconds > MAX_CLOCK_SKEW {
            return Err(ContractError::Code(ErrorCode::ValidationError));
        }
        env.config.jwt_skew = Some(skew_seconds);
        Ok(())
    }

    /// By how many seconds clocks may differ.
    pub fn get_jwt_skew(env: &Ledger) -> (n: u64)
        ensures
            n == jwt_skew_in(*env),
    {
        match env.config.jwt_skew {
            Some(n) => n,
            None => DEFAULT_CLOCK_SKEW,
        }
    }

    /// Drops the token ids that are no longer stored from their index.
    pub fn purge_expired_jtis(env: &mut Ledger) -> (r: Result<(), ContractError>)
        ensures
            follows(r, admin_refusal(*old(env))),
            r is Err ==> *final(env) == *old(env),
            r is Ok ==> token_ids_purged(*old(env), *final(env)),
    {
        if let Err(e) = env.require_admin() {
            return Err(e);
        }
        let mut live: Vec<Bytes> = Vec::new();
        let mut i: usize = 0;
        let ghost keys = env.attestors.jti_index@.map_values(|b: Bytes| b@);
        let ghost keep = |k: Seq<u8>| old(env).attestors.jtis@.contains_key(k);
        proof {
            reveal(Seq::filter);
            assert(live@.map_values(|b: Bytes| b@) =~= keys.take(0).filter(keep));
        }
        while i < env.attestors.jti_index.len()
            invariant
                0 <= i <= env.attestors.jti_index@.len(),
                *env == *old(env),
                keys == env.attestors.jti_index@.map_values(|b: Bytes| b@),
                keep == (|k: Seq<u8>| old(env).attestors.jtis@.contains_key(k)),
                live@.map_values(|b: Bytes| b@) == keys.take(i as int).filter(keep),
            decreases env.attestors.jti_index@.len() - i,
        {
            let ghost before = live@;
            if env.attestors.jtis.has(&env.attestors.jti_index[i]) {
                let copy = env.attestors.jti_index[i].copy();
                live.push(copy);
                assert(live@.map_values(|b: Bytes| b@) =~= before.map_values(
                    |b: Bytes| b@,
                ).push(keys[i as int]));
            }
            proof {
                reveal(Seq::filter);
                assert(keys.take(i + 1).drop_last() =~= keys.take(i as int));
                assert(keys.take(i + 1).last() == keys[i as int]);
            }
            i = i + 1;
        }
        assert(keys.take(i as int) =~= keys);
        env.attestors.jti_index = live;
        Ok(())
    }

    /// What a token of an issuer is verified by: the key of the issuer, the
    /// greatest length, and the tolerance of the clock. There is nothing to
    /// verify where the issuer has no key.
    pub fn token_to_check(env: &Ledger, issuer: Address) -> (r: Option<(&Bytes, u32, u64)>)
        ensures
            match r {
                Some(c) => {
                    &&& env.attestors.sep10_keys@.contains_key(issuer)
                    &&& *c.0 == env.attestors.sep10_keys@[issuer]
                    &&& c.1 == jwt_max_len_in(*env)
                    &&& c.2 == jwt_skew_in(*env)
                },
                None => !env.attestors.sep10_keys@.contains_key(issuer),
            },
            r is Some ==> token_refusal(*env, issuer, true) is None,
    {
        match env.attestors.sep10_keys.get(&issuer) {
            None => None,
            Some(key) => Some((key, Self::get_jwt_max_len(env), Self::get_jwt_skew(env))),
        }
    }

    /// What a token of an issuer is verified by for a subject: the same, and the
    /// text of the subject, which the token has to name.
    pub fn token_to_check_for_subject(env: &Ledger, issuer: Address, subject: Address) -> (r: Option<
        (&Bytes, u32, u64, String),
    >)
        ensures
            match r {
                Some(c) => {
                    &&& env.attestors.sep10_keys@.contains_key(issuer)
                    &&& *c.0 == env.attestors.sep10_keys@[issuer]
                    &&& c.1 == jwt_max_len_in(*env)
                    &&& c.2 == jwt_skew_in(*env)
                    &&& c.3@ == strkey_text(subject.xdr())
                },
                None => !env.attestors.sep10_keys@.contains_key(issuer),
            },
            r is Some ==> token_refusal(*env, issuer, true) is None,
    {
        match Self::token_to_check(env, issuer) {
            None => None,
            Some((key, max_len, skew)) => Some((key, max_len, skew, subject.to_text())),
        }
    }

    /// Requires that a token of an issuer with a key has verified. Whether it
    /// has, under what [`AnchorKitContract::token_to_check`] gives, is reported
    /// by the caller.
    pub fn verify_sep10_token(env: &Ledger, issuer: Address, token_verified: bool) -> (r: Result<
        (),
        ContractError,
    >)
        ensures
            follows(r, token_refusal(*env, issuer, token_verified)),
    {
        if !env.attestors.sep10_keys.has(&issuer) {
            return Err(ContractError::Code(ErrorCode::InvalidSep10Token));
        }
        if !token_verified {
            return Err(ContractError::Code(ErrorCode::InvalidSep10Token));
        }
        Ok(())
    }

    /// Requires that a token of an issuer with a key has verified for a subject.
    /// Whether it has, under what
    /// [`AnchorKitContract::token_to_check_for_subject`] gives, is reported by the
    /// caller.
    pub fn verify_sep10_token_for_subject(env: &Ledger, issuer: Address, token_verified: bool) -> (r:
        Result<(), ContractError>)
        ensures
            follows(r, token_refusal(*env, issuer, token_verified)),
    {
        Self::verify_sep10_token(env, issuer, token_verified)
    }

    /// Registers an attestor with its key. Whether the token has verified, under
    /// what [`AnchorKitContract::token_to_check_for_subject`] gives for the
    /// attestor, is reported by the caller.
    pub fn register_attestor(
        env: &mut Ledger,
        attestor: Address,
        sep10_token: String,
        sep10_issuer: Address,
        public_key: [u8; 32],
        token_verified: bool,
    ) -> (r: Result<(), ContractError>)
        ensures
            follows(
                r,
                register_refusal(
                    *old(env),
                    attestor,
                    sep10_token@,
                    sep10_issuer,
                    token_verified,
                ),
            ),
            r is Err ==> *final(env) == *old(env),
            r is Ok ==> registered_by_admin(*old(env), *final(env), attestor, public_key),
    {
        if sep10_token.as_str().unicode_len() == 0 {
            return Err(ContractError::Code(ErrorCode::ValidationError));
        }
        if !env.is_entrusted(Duty::Attestors, &attestor) {
            if let Err(e) = env.require_duty(Duty::Attestors) {
                return Err(e);
            }
        } else {
            if !env.auth.authorizes(&attestor) {
                return Err(ContractError::Code(ErrorCode::UnauthorizedAttestor));
            }
        }
        if let Err(e) = Self::verify_sep10_token(env, sep10_issuer, token_verified) {
            return Err(e);
        }
        if let Err(e) = Self::require_place(env) {
            return Err(e);
        }
        if env.attestors.registered.has(&attestor) {
            return Err(ContractError::Code(ErrorCode::AttestorAlreadyRegistered));
        }
        let admin = match env.access.admin {
            Some(a) => a,
            None => {
                return Err(ContractError::Code(ErrorCode::NotInitialized));
            },
        };
        env.attestors.registered.set(attestor, true);
        env.attestors.public_keys.set(attestor, public_key);
        env.attestors.count = env.attestors.count + 1;
        if !lists_address(&env.attestors.list, &attestor) {
            env.attestors.list.push(attestor);
        }
        env.log_action(
            admin,
            "register_attestor",
            AdminTarget::Account(attestor),
            "",
            "registered",
        );
        let timestamp: u64 = env.clock.timestamp;
        env.publish(Event::AttestorAdded(AttestorRegisteredEvent { attestor, timestamp }));
        Ok(())
    }

    fn require_place(env: &Ledger) -> (r: Result<(), ContractError>)
        ensures
            follows(r, register_full(*env)),
    {
        let config = Self::get_capacity_config(env);
        if env.attestors.count >= config.max_attestors {
            return Err(ContractError::Code(ErrorCode::AttestorCapacityExceeded));
        }
        Ok(())
    }

    fn drop_from_list(env: &mut Ledger, attestor: &Address)
        ensures
            *final(env) == (Ledger {
                attestors: AttestorState { list: final(env).attestors.list, ..old(env).attestors },
                ..*old(env)
            }),
            drops_first(old(env).attestors.list@, final(env).attestors.list@, *attestor),
    {
        let mut i: usize = 0;
        while i < env.attestors.list.len()
            invariant
                0 <= i <= env.attestors.list@.len(),
                *env == *old(env),
                forall|j: int| 0 <= j < i ==> env.attestors.list@[j] != *attestor,
            decreases env.attestors.list@.len() - i,
        {
            if env.attestors.list[i].equals(attestor) {
                assert(is_first(env.attestors.list@, *attestor, i as int));
                env.attestors.list.remove(i);
                return;
            }
            i = i + 1;
        }
    }

    /// Drops the registration and the key of an attestor, and puts the
    /// revocation on record.
    fn drop_attestor(env: &mut Ledger, attestor: Address, by: Address)
        requires
            unregistered_refusal(old(env).attestors, attestor) is None,
        ensures
            *final(env) == (Ledger { attestors: final(env).attestors, ..*old(env) }),
            attestor_revoked(*old(env), final(env).attestors, attestor, by),
    {
        let now: u64 = env.clock.timestamp;
        if let Some(k) = env.attestors.public_keys.get(&attestor) {
            let record = AttestorRevocationRecord {
                attestor,
                revoked_at: now,
                revoked_by: by,
                reason: String::new(),
                public_key: *k,
                reactivated: false,
                reactivated_at: 0,
            };
            env.attestors.revocations.set(attestor, record);
        }
        env.attestors.registered.remove(&attestor);
        env.attestors.public_keys.remove(&attestor);
        if env.attestors.count > 0 {
            env.attestors.count = env.attestors.count - 1;
        }
        Self::drop_from_list(env, &attestor);
    }

    fn check_registered(env: &Ledger, attestor: &Address) -> (r: Result<(), ContractError>)
        ensures
            follows(r, unregistered_refusal(env.attestors, *attestor)),
    {
        if !env.attestors.registered.has(attestor) || !env.attestors.public_keys.has(attestor) {
            return Err(ContractError::Code(ErrorCode::AttestorNotRegistered));
        }
        Ok(())
    }

    /// Revokes an attestor: its registration and key are dropped, and a record
    /// with the key is kept from which it can be restored. The revocation is
    /// logged before and after, and announced.
    pub fn revoke_attestor(env: &mut Ledger, attestor: Address) -> (r: Result<(), ContractError>)
        ensures
            follows(r, revoke_refusal(*old(env), attestor)),
            r is Err ==> *final(env) == *old(env),
            r is Ok ==> revoked_by_admin(*old(env), *final(env), attestor),
    {
        let admin = match env.require_duty(Duty::Attestors) {
            Err(e) => {
                return Err(e);
            },
            Ok(a) => a,
        };
        if let Err(e) = Self::check_registered(env, &attestor) {
            return Err(e);
        }
        let timestamp: u64 = env.clock.timestamp;
        env.log_action(
            admin,
            "revoke_attestor",
            AdminTarget::Account(attestor),
            "registered",
            "revoked",
        );
        Self::drop_attestor(env, attestor, admin);
        env.log_action(
            admin,
            "revoke_attestor",
            AdminTarget::Account(attestor),
            "registered",
            "revoked",
        );
        env.publish(
            Event::AttestorRemoved(AttestorRevokedEvent { attestor, revoked_by: admin, timestamp }),
        );
        Ok(())
    }

    /// Restores a revoked attestor with the key it had; the record of the
    /// revocation is kept and marked.
    pub fn reactivate_attestor(env: &mut Ledger, attestor: Address) -> (r: Result<
        (),
        ContractError,
    >)
        ensures
            follows(r, restore_refusal(*old(env), attestor)),
            r is Err ==> *final(env) == *old(env),
            r is Ok ==> restored_by_admin(*old(env), *final(env), attestor),
    {
        let admin = match env.require_duty(Duty::Attestors) {
            Err(e) => {
                return Err(e);
            },
            Ok(a) => a,
        };
        if env.attestors.registered.has(&attestor) {
            return Err(ContractError::Code(ErrorCode::AttestorAlreadyRegistered));
        }
        let public_key = match env.attestors.revocations.get(&attestor) {
            Some(record) => record.public_key,
            None => {
                return Err(ContractError::Code(ErrorCode::AttestorNotRegistered));
            },
        };
        if let Err(e) = Self::require_place(env) {
            return Err(e);
        }
        let now: u64 = env.clock.timestamp;
        env.attestors.registered.set(attestor, true);
        env.attestors.public_keys.set(attestor, public_key);
        if let Some(record) = env.attestors.revocations.get_mut(&attestor) {
            record.reactivated = true;
            record.reactivated_at = now;
        }
        env.attestors.count = env.attestors.count + 1;
        if !lists_address(&env.attestors.list, &attestor) {
            env.attestors.list.push(attestor);
        }
        env.log_action(
            admin,
            "reactivate_attestor",
            AdminTarget::Account(attestor),
            "revoked",
            "registered",
        );
        env.publish(
            Event::AttestorRestored(
                AttestorReactivatedEvent { attestor, reactivated_by: admin, timestamp: now },
            ),
        );
        Ok(())
    }

    /// The record of the last revocation of an attestor.
    pub fn get_attestor_revocation_info(env: &Ledger, attestor: Address) -> (r: Option<
        AttestorRevocationRecord,
    >)
        ensures
            r == (if env.attestors.revocations@.contains_key(attestor) {
                Some(env.attestors.revocations@[attestor])
            } else {
                None
            }),
    {
        match env.attestors.revocations.get(&attestor) {
            Some(record) => Some(record.clone()),
            None => None,
        }
    }

    /// Whether an address is a registered attestor.
    pub fn is_attestor(env: &Ledger, attestor: Address) -> (r: bool)
        ensures
            r == (env.attestors.registered@.contains_key(attestor)
                && env.attestors.registered@[attestor]),
    {
        match env.attestors.registered.get(&attestor) {
            Some(b) => *b,
            None => false,
        }
    }

    /// Registers an attestor within a session. The operator is the admin or
    /// holds the role for attestors.
    pub fn register_attestor_with_session(
        env: &mut Ledger,
        operator: Address,
        session_id: u64,
        attestor: Address,
        public_key: [u8; 32],
    ) -> (r: Result<(), ContractError>)
        requires
            can_log(*old(env)),
        ensures
            follows(r, session_register_refusal(*old(env), operator, session_id, attestor)),
            r is Err ==> *final(env) == *old(env),
            r is Ok ==> registered_in_session(
                *old(env),
                *final(env),
                operator,
                session_id,
                attestor,
                public_key,
            ),
    {
        if let Err(e) = env.require_delegate(&operator, Duty::Attestors) {
            return Err(e);
        }
        if let Err(e) = Self::check_session_open(env, session_id) {
            return Err(e);
        }
        if env.attestors.registered.has(&attestor) {
            return Err(ContractError::Code(ErrorCode::AttestorAlreadyRegistered));
        }
        if let Err(e) = Self::require_place(env) {
            return Err(e);
        }
        Self::open_session(env, session_id);
        env.attestors.registered.set(attestor, true);
        env.attestors.public_keys.set(attestor, public_key);
        env.attestors.count = env.attestors.count + 1;
        if !lists_address(&env.attestors.list, &attestor) {
            env.attestors.list.push(attestor);
        }
        let log = Self::log_operation(env, session_id, operator, "register", 0);
        let timestamp: u64 = env.clock.timestamp;
        env.publish(Event::AttestorAdded(AttestorRegisteredEvent { attestor, timestamp }));
        env.publish(Event::AuditLogged(log));
        Ok(())
    }

    /// Revokes an attestor within a session. The operator is the admin or holds
    /// the role for attestors.
    pub fn revoke_attestor_with_session(
        env: &mut Ledger,
        operator: Address,
        session_id: u64,
        attestor: Address,
    ) -> (r: Result<(), ContractError>)
        requires
            can_log(*old(env)),
        ensures
            follows(r, session_revoke_refusal(*old(env), operator, session_id, attestor)),
            r is Err ==> *final(env) == *old(env),
            r is Ok ==> revoked_in_session(
                *old(env),
                *final(env),
                operator,
                session_id,
                attestor,
            ),
    {
        if let Err(e) = env.require_delegate(&operator, Duty::Attestors) {
            return Err(e);
        }
        if let Err(e) = Self::check_session_open(env, session_id) {
            return Err(e);
        }
        if let Err(e) = Self::check_registered(env, &attestor) {
            return Err(e);
        }
        Self::open_session(env, session_id);
        Self::drop_attestor(env, attestor, operator);
        let log = Self::log_operation(env, session_id, operator, "revoke", 0);
        let timestamp: u64 = env.clock.timestamp;
        env.publish(
            Event::AttestorRemoved(
                AttestorRevokedEvent { attestor, revoked_by: operator, timestamp },
            ),
        );
        env.publish(Event::AuditLogged(log));
        Ok(())
    }

    pub(crate) fn load_or_init_profile(env: &Ledger, attestor: &Address) -> (p: AttestorProfile)
        ensures
            p@ == profile_of(*env, *attestor),
    {
        match env.attestors.profiles.get(attestor) {
            Some(p) => AttestorProfile {
                attestor: p.attestor,
                endpoint: p.endpoint.clone(),
                webhook_url: p.webhook_url.clone(),
                services: copy_codes(&p.services),
                enabled: p.enabled,
                updated_at: p.updated_at,
            },
            None => {
                let p = AttestorProfile {
                    attestor: *attestor,
                    endpoint: String::new(),
                    webhook_url: String::new(),
                    services: Vec::new(),
                    enabled: true,
                    updated_at: 0,
                };
                assert(p.services@ =~= Seq::<u32>::empty());
                p
            },
        }
    }

    /// The profile of an attestor.
    pub fn get_attestor_profile(env: &Ledger, attestor: Address) -> (r: Result<
        AttestorProfile,
        ContractError,
    >)
        ensures
            follows(r, attestor_refusal(*env, attestor)),
            r is Ok ==> r->Ok_0@ == profile_of(*env, attestor),
    {
        if let Err(e) = env.check_attestor(&attestor) {
            return Err(e);
        }
        Ok(Self::load_or_init_profile(env, &attestor))
    }

    /// Sets the endpoint of an attestor. The caller reports whether it is a
    /// valid one.
    pub fn set_endpoint(
        env: &mut Ledger,
        attestor: Address,
        endpoint: String,
        endpoint_valid: bool,
    ) -> (r: Result<(), ContractError>)
        ensures
            follows(r, profile_refusal(*old(env), attestor, endpoint_valid)),
            r is Err ==> *final(env) == *old(env),
            r is Ok ==> endpoint_set(*old(env), *final(env), attestor, endpoint),
    {
        if let Err(e) = env.require_auth(&attestor) {
            return Err(e);
        }
        if let Err(e) = env.check_attestor(&attestor) {
            return Err(e);
        }
        if !endpoint_valid {
            return Err(ContractError::Code(ErrorCode::InvalidEndpointFormat));
        }
        let mut profile = Self::load_or_init_profile(env, &attestor);
        profile.endpoint = endpoint.clone();
        profile.updated_at = env.clock.timestamp;
        env.attestors.profiles.set(attestor, profile);
        env.log_action(attestor, "set_endpoint", AdminTarget::Account(attestor), "", "updated");
        env.publish(Event::EndpointChanged(EndpointUpdated { attestor, endpoint }));
        Ok(())
    }

    /// The endpoint of an attestor; empty where none was set.
    pub fn get_endpoint(env: &Ledger, attestor: Address) -> (r: Result<String, ContractError>)
        ensures
            follows(r, attestor_refusal(*env, attestor)),
            r is Ok ==> r->Ok_0@ == profile_of(*env, attestor).endpoint,
    {
        if let Err(e) = env.check_attestor(&attestor) {
            return Err(e);
        }
        Ok(Self::load_or_init_profile(env, &attestor).endpoint)
    }

    /// Sets the address to which events are delivered for an attestor. The
    /// caller reports whether it is a valid one.
    pub fn register_webhook(
        env: &mut Ledger,
        attestor: Address,
        webhook_url: String,
        url_valid: bool,
    ) -> (r: Result<(), ContractError>)
        ensures
            follows(r, profile_refusal(*old(env), attestor, url_valid)),
            r is Err ==> *final(env) == *old(env),
            r is Ok ==> webhook_set(*old(env), *final(env), attestor, webhook_url),
    {
        if let Err(e) = env.require_auth(&attestor) {
            return Err(e);
        }
        if let Err(e) = env.check_attestor(&attestor) {
            return Err(e);
        }
        if !url_valid {
            return Err(ContractError::Code(ErrorCode::InvalidEndpointFormat));
        }
        let timestamp: u64 = env.clock.timestamp;
        let mut profile = Self::load_or_init_profile(env, &attestor);
        profile.webhook_url = webhook_url;
        profile.updated_at = timestamp;
        env.attestors.profiles.set(attestor, profile);
        env.publish(Event::WebhookRegistered(WebhookRegisteredEvent { attestor, timestamp }));
        Ok(())
    }

    /// The address to which events are delivered for an attestor; empty where
    /// none was set.
    pub fn get_webhook_url(env: &Ledger, attestor: Address) -> (r: Result<String, ContractError>)
        ensures
            follows(r, attestor_refusal(*env, attestor)),
            r is Ok ==> r->Ok_0@ == profile_of(*env, attestor).webhook_url,
    {
        if let Err(e) = env.check_attestor(&attestor) {
            return Err(e);
        }
        Ok(Self::load_or_init_profile(env, &attestor).webhook_url)
    }
}

/// An attestor that was revoked, in a session or not, is no attestor until it
/// is restored, and is told apart from one never registered.
pub proof fn revoked_attestors_are_refused(
    before: Ledger,
    after: Ledger,
    attestor: Address,
    by: Address,
)
    requires
        attestor_revoked(before, after.attestors, attestor, by),
    ensures
        attestor_refusal(after, attestor) == Some(ContractError::Code(ErrorCode::AttestorRevoked)),
        on_record(after.attestors, attestor),
{
}

/// Restoring a revoked attestor gives back the key it had before the
/// revocation.
pub proof fn restoring_gives_back_the_key(
    before: Ledger,
    revoked: Ledger,
    restored: AttestorState,
    attestor: Address,
    by: Address,
)
    requires
        before.attestors.public_keys@.contains_key(attestor),
        attestor_revoked(before, revoked.attestors, attestor, by),
        attestor_added(
            revoked.attestors,
            restored,
            attestor,
            revoked.attestors.revocations@[attestor].public_key,
        ),
    ensures
        restored.registered@.contains_key(attestor),
        restored.public_keys@ == before.attestors.public_keys@,
{
    assert(restored.public_keys@ =~= before.attestors.public_keys@);
}

/// A profile reads back as it was written, and the others stay as they are.
pub proof fn profiles_read_back(
    before: Ledger,
    after: Ledger,
    attestor: Address,
    profile: ProfileView,
    other: Address,
)
    requires
        profile_replaced(before.attestors, after.attestors, attestor, profile),
    ensures
        profile_of(after, attestor) == profile,
        other != attestor ==> profile_of(after, other) == profile_of(before, other),
{
}

/// Whether the list names each registered attestor once and nobody else, and
/// the count is its length.
pub open spec fn lists_registered(a: AttestorState) -> bool {
    &&& a.list@.no_duplicates()
    &&& a.count == a.list@.len()
    &&& forall|x: Address|
        #![trigger a.list@.contains(x)]
        #![trigger a.registered@.contains_key(x)]
        a.list@.contains(x) == a.registered@.contains_key(x)
}

/// Before anyone is registered, the list and the count are in step with the
/// register, and every registered attestor has a key.
pub proof fn an_empty_register_is_in_step(a: AttestorState)
    requires
        a.blank(),
    ensures
        lists_registered(a),
        registered_have_keys(a),
{
}

/// Adding an attestor, in a session or not, or restoring one keeps the list and
/// the count in step with the register.
pub proof fn additions_keep_the_list(
    before: AttestorState,
    after: AttestorState,
    attestor: Address,
    public_key: [u8; 32],
)
    requires
        lists_registered(before),
        before.count < u64::MAX,
        !before.registered@.contains_key(attestor),
        attestor_added(before, after, attestor, public_key),
    ensures
        lists_registered(after),
{
    assert(!before.list@.contains(attestor));
    let s = before.list@;
    assert(after.list@ == s.push(attestor));
    pushed_once(s, attestor);
}

/// Revoking an attestor, in a session or not, keeps the list and the count in
/// step with the register.
pub proof fn revocations_keep_the_list(
    before: Ledger,
    after: AttestorState,
    attestor: Address,
    by: Address,
)
    requires
        lists_registered(before.attestors),
        before.attestors.registered@.contains_key(attestor),
        attestor_revoked(before, after, attestor, by),
    ensures
        lists_registered(after),
{
    let s = before.attestors.list@;
    assert(s.contains(attestor));
    let i = choose|i: int| #[trigger] is_first(s, attestor, i) && after.list@ == s.remove(i);
    let t = s.remove(i);
    assert forall|x: Address| #[trigger] t.contains(x) == (s.contains(x) && x != attestor) by {
        if s.contains(x) && x != attestor {
            let k = choose|k: int| 0 <= k < s.len() && s[k] == x;
            if k < i {
                assert(t[k] == x);
            } else {
                assert(t[k - 1] == x);
            }
        }
        if t.contains(x) {
            let k = choose|k: int| 0 <= k < t.len() && t[k] == x;
            if k < i {
                assert(s[k] == x);
            } else {
                assert(s[k + 1] == x);
            }
        }
    }
}

/// Whether each registered attestor has a key.
pub open spec fn registered_have_keys(a: AttestorState) -> bool {
    forall|x: Address| #[trigger]
        a.registered@.contains_key(x) ==> a.public_keys@.contains_key(x)
}

/// Each registered attestor keeps a key through additions and revocations, so
/// that whoever is registered can be revoked.
pub proof fn attestors_keep_their_keys(
    before: Ledger,
    after: AttestorState,
    attestor: Address,
    public_key: [u8; 32],
    by: Address,
)
    requires
        registered_have_keys(before.attestors),
        attestor_added(before.attestors, after, attestor, public_key) || attestor_revoked(
            before,
            after,
            attestor,
            by,
        ),
    ensures
        registered_have_keys(after),
{
}

/// Revoking an attestor, in a session or not, puts its key on record and keeps
/// the records of all other revocations.
pub proof fn revocations_stay_on_record(
    before: Ledger,
    revoked: AttestorState,
    attestor: Address,
    by: Address,
    other: Address,
)
    requires
        attestor_revoked(before, revoked, attestor, by),
    ensures
        revoked.revocations@.contains_key(attestor),
        revoked.revocations@[attestor].public_key == before.attestors.public_keys@[attestor],
        revoked.revocations@[attestor].revoked_by == by,
        before.attestors.revocations@.contains_key(other) ==> revoked.revocations@.contains_key(other),
        other != attestor && before.attestors.revocations@.contains_key(other)
            ==> revoked.revocations@[other] == before.attestors.revocations@[other],
{
}

} // verus!
