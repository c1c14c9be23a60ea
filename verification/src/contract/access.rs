//! Administration: initialisation, the admin, roles and capabilities, upgrades
//! and migrations.
use crate::address::Address;
use crate::contract::events::{ContractInitializedEvent, Event, UpgradeEvent};
use crate::contract::ledger::{
    admin_refusal, auth_refusal, capability_granted, duty_refusal, either, entrusted, follows,
    holds_capability, holds_role, is_admin, refuse_when, role_granted, signed_by_delegate,
    unsigned_duty, AccessState, AdminAction, AdminOutcome, AdminTarget, AnchorKitContract,
    ContractError, Duty, Ledger, QuoteState,
};
use crate::contract::limits::{name_of_role, role_name};
use crate::contract::quotes::migration_of;
use crate::contract::types::{AdminCapability, AdminRole, ContractVersion};
use crate::errors::ErrorCode;
use crate::migration::{
    current_version, target_error, validate_migration, MigrationError, MigrationRecord,
    LATEST_SCHEMA_VERSION, SCHEMA_V1, SCHEMA_V2,
};
use vstd::prelude::*;

verus! {

/// The name of a capability.
pub open spec fn name_of_capability(cap: AdminCapability) -> Seq<char> {
    match cap {
        AdminCapability::UpgradeContract => "UpgradeContract"@,
        AdminCapability::MigrateSchema => "MigrateSchema"@,
        AdminCapability::SetCacheConfig => "SetCacheConfig"@,
        AdminCapability::ManageAttestors => "ManageAttestors"@,
        AdminCapability::ManageKyc => "ManageKyc"@,
        AdminCapability::ManageCacheEntries => "ManageCacheEntries"@,
        AdminCapability::ToggleServices => "ToggleServices"@,
        AdminCapability::SetRateLimits => "SetRateLimits"@,
        AdminCapability::SetJwtConfig => "SetJwtConfig"@,
        AdminCapability::ManageAnchorMetadata => "ManageAnchorMetadata"@,
    }
}

/// The name of a capability.
pub fn capability_name(cap: AdminCapability) -> (s: &'static str)
    ensures
        s@ == name_of_capability(cap),
{
    match cap {
        AdminCapability::UpgradeContract => "UpgradeContract",
        AdminCapability::MigrateSchema => "MigrateSchema",
        AdminCapability::SetCacheConfig => "SetCacheConfig",
        AdminCapability::ManageAttestors => "ManageAttestors",
        AdminCapability::ManageKyc => "ManageKyc",
        AdminCapability::ManageCacheEntries => "ManageCacheEntries",
        AdminCapability::ToggleServices => "ToggleServices",
        AdminCapability::SetRateLimits => "SetRateLimits",
        AdminCapability::SetJwtConfig => "SetJwtConfig",
        AdminCapability::ManageAnchorMetadata => "ManageAnchorMetadata",
    }
}

/// Whether an entry logs a grant or the withdrawal of one by the admin.
pub open spec fn logs_grant(
    entry: AdminAction,
    admin: Address,
    action: Seq<char>,
    grantee: Address,
    before: Seq<char>,
    after: Seq<char>,
) -> bool {
    &&& entry.actor == admin
    &&& entry.action@ == action
    &&& entry.target == AdminTarget::Account(grantee)
    &&& entry.before@ == before
    &&& entry.after is Label
    &&& entry.after->Label_0@ == after
}

/// The version in force.
pub open spec fn version_in(env: Ledger) -> ContractVersion {
    match env.access.version {
        Some(v) => v,
        None => ContractVersion { major: 0, minor: 1, patch: 0, upgraded_at: 0 },
    }
}

/// Thirty-two zero bytes.
pub open spec fn is_zero_hash(h: [u8; 32]) -> bool {
    forall|i: int| 0 <= i < 32 ==> h@[i] == 0
}

/// The refusal of a call before initialisation.
pub open spec fn initialized_refusal(env: Ledger) -> Option<ContractError> {
    refuse_when(!env.access.initialized, ErrorCode::NotInitialized)
}

/// Whether an upgrade announcement tells of the change.
pub open spec fn announces_upgrade(
    e: UpgradeEvent,
    before: Ledger,
    new_wasm_hash: [u8; 32],
    version: ContractVersion,
) -> bool {
    &&& e.new_wasm_hash == new_wasm_hash
    &&& match before.access.wasm_hash {
        Some(h) => e.old_wasm_hash == h,
        None => is_zero_hash(e.old_wasm_hash),
    }
    &&& e.new_major == version.major
    &&& e.new_minor == version.minor
    &&& e.new_patch == version.patch
    &&& e.upgraded_at == version.upgraded_at
}

/// The code under which a bad target version is refused.
pub open spec fn migration_code(e: MigrationError) -> ErrorCode {
    match e {
        MigrationError::InvalidTargetVersion => ErrorCode::ValidationError,
        MigrationError::VersionTooNew => ErrorCode::UnsupportedCapabilityVersion,
        MigrationError::VersionNotAdvancing => ErrorCode::ValidationError,
    }
}

/// Whether going to a version rewrites quotes first.
pub open spec fn rewrites_quotes(env: Ledger, target: u32) -> bool {
    target >= SCHEMA_V2 && (env.access.schema_version < SCHEMA_V2
        || env.quotes.migration_cursor is Some)
}

/// Why a migration is refused.
pub open spec fn migrate_refusal(env: Ledger, target: u32, batch_size: u32) -> Option<
    ContractError,
> {
    either(
        initialized_refusal(env),
        either(
            duty_refusal(env, Duty::Migrate),
            either(
                match target_error(env.access.schema_version, target) {
                    Some(e) => Some(ContractError::Code(migration_code(e))),
                    None => None,
                },
                refuse_when(
                    rewrites_quotes(env, target) && batch_size == 0,
                    ErrorCode::ValidationError,
                ),
            ),
        ),
    )
}

/// The ledger after the version was advanced: the step is on record.
pub open spec fn version_advanced(before: AccessState, after: AccessState, target: u32, now: u64) -> bool {
    &&& after == (AccessState {
        schema_version: target,
        migrations: after.migrations,
        ..before
    })
    &&& after.migrations@ == before.migrations@.push(
        MigrationRecord {
            from_version: before.schema_version,
            to_version: target,
            migrated_at: now,
        },
    )
}

/// The entry of a migration in the administrative log.
pub open spec fn migration_entry(env: Ledger, migrated: int) -> AdminAction {
    AdminAction {
        actor: env.access.admin->0,
        action: "schema_migration",
        target: AdminTarget::Label("quotes"),
        before: "v1",
        after: AdminOutcome::MigratedQuotes(migrated as u32),
    }
}

fn hash_is_zero(h: &[u8; 32]) -> (r: bool)
    ensures
        r == is_zero_hash(*h),
{
    let mut i: usize = 0;
    while i < 32
        invariant
            0 <= i <= 32,
            forall|j: int| 0 <= j < i ==> h@[j] == 0,
        decreases 32 - i,
    {
        if h[i] != 0 {
            assert(h@[i as int] != 0);
            return false;
        }
        i = i + 1;
    }
    true
}

/// Why the contract cannot be initialised.
pub open spec fn initialize_refusal(env: Ledger, admin: Address) -> Option<ContractError> {
    either(
        auth_refusal(env, admin),
        refuse_when(env.access.initialized, ErrorCode::AlreadyInitialized),
    )
}

/// The ledger after the contract was initialised with an admin.
pub open spec fn initialized_by(before: Ledger, after: Ledger, admin: Address) -> bool {
    &&& after == (Ledger {
        access: AccessState {
            initialized: true,
            admin: Some(admin),
            schema_version: SCHEMA_V1,
            ..before.access
        },
        events: after.events,
        ..before
    })
    &&& after.events@ == before.events@.push(
        Event::ContractInitialized(
            ContractInitializedEvent { admin, timestamp: before.clock.timestamp },
        ),
    )
}

/// The ledger after the next admin was nominated.
pub open spec fn admin_proposed(before: Ledger, after: Ledger, new_admin: Address) -> bool {
    &&& after == (Ledger {
        access: AccessState { pending_admin: Some(new_admin), ..before.access },
        events: after.events,
        ..before
    })
    &&& after.events@ == before.events@.push(Event::AdminProposed(new_admin))
}

/// Why the nominated admin cannot become the admin.
pub open spec fn succession_refusal(env: Ledger) -> Option<ContractError> {
    match env.access.pending_admin {
        None => Some(ContractError::Code(ErrorCode::NotInitialized)),
        Some(a) => auth_refusal(env, a),
    }
}

/// The ledger after the nominated admin became the admin.
pub open spec fn admin_accepted(before: Ledger, after: Ledger) -> bool {
    let new_admin = before.access.pending_admin->0;
    &&& after == (Ledger {
        access: AccessState {
            admin: Some(new_admin),
            pending_admin: None,
            ..before.access
        },
        events: after.events,
        ..before
    })
    &&& after.events@ == before.events@.push(Event::AdminAccepted(new_admin))
}

/// The ledger after a role was granted that was not held before.
pub open spec fn role_given(
    before: Ledger,
    after: Ledger,
    grantee: Address,
    role: AdminRole,
) -> bool {
    let entry = after.admin_log@.last();
    &&& after == (Ledger {
        access: AccessState { roles: after.access.roles, ..before.access },
        admin_log: after.admin_log,
        events: after.events,
        ..before
    })
    &&& after.access.roles@ == before.access.roles@.insert((role, grantee), true)
    &&& after.admin_log@ == before.admin_log@.push(entry)
    &&& logs_grant(
        entry,
        before.access.admin->0,
        "grant_role"@,
        grantee,
        ""@,
        name_of_role(role),
    )
    &&& after.events@ == before.events@.push(Event::RoleGranted(grantee, role))
}

/// The ledger after a role was withdrawn.
pub open spec fn role_withdrawn(
    before: Ledger,
    after: Ledger,
    grantee: Address,
    role: AdminRole,
) -> bool {
    let entry = after.admin_log@.last();
    &&& after == (Ledger {
        access: AccessState { roles: after.access.roles, ..before.access },
        admin_log: after.admin_log,
        events: after.events,
        ..before
    })
    &&& after.access.roles@ == before.access.roles@.remove((role, grantee))
    &&& after.admin_log@ == before.admin_log@.push(entry)
    &&& logs_grant(
        entry,
        before.access.admin->0,
        "revoke_role"@,
        grantee,
        name_of_role(role),
        ""@,
    )
    &&& after.events@ == before.events@.push(Event::RoleRevoked(grantee, role))
}

/// The ledger after a capability was granted that was not held before.
pub open spec fn capability_given(
    before: Ledger,
    after: Ledger,
    grantee: Address,
    capability: AdminCapability,
) -> bool {
    let entry = after.admin_log@.last();
    &&& after == (Ledger {
        access: AccessState {
            capabilities: after.access.capabilities,
            ..before.access
        },
        admin_log: after.admin_log,
        events: after.events,
        ..before
    })
    &&& after.access.capabilities@ == before.access.capabilities@.insert(
        (capability, grantee),
        true,
    )
    &&& after.admin_log@ == before.admin_log@.push(entry)
    &&& logs_grant(
        entry,
        before.access.admin->0,
        "grant_capability"@,
        grantee,
        ""@,
        name_of_capability(capability),
    )
    &&& after.events@ == before.events@.push(
        Event::CapabilityGranted(grantee, capability),
    )
}

/// The ledger after a capability was withdrawn.
pub open spec fn capability_withdrawn(
    before: Ledger,
    after: Ledger,
    grantee: Address,
    capability: AdminCapability,
) -> bool {
    let entry = after.admin_log@.last();
    &&& after == (Ledger {
        access: AccessState {
            capabilities: after.access.capabilities,
            ..before.access
        },
        admin_log: after.admin_log,
        events: after.events,
        ..before
    })
    &&& after.access.capabilities@ == before.access.capabilities@.remove(
        (capability, grantee),
    )
    &&& after.admin_log@ == before.admin_log@.push(entry)
    &&& logs_grant(
        entry,
        before.access.admin->0,
        "revoke_capability"@,
        grantee,
        name_of_capability(capability),
        ""@,
    )
    &&& after.events@ == before.events@.push(
        Event::CapabilityRevoked(grantee, capability),
    )
}

/// Why the contract cannot go over to new code.
pub open spec fn upgrade_refusal(env: Ledger, new_wasm_hash: [u8; 32]) -> Option<ContractError> {
    either(
        initialized_refusal(env),
        either(
            duty_refusal(env, Duty::Upgrade),
            refuse_when(is_zero_hash(new_wasm_hash), ErrorCode::ValidationError),
        ),
    )
}

/// The ledger after the contract went over to new code.
pub open spec fn code_replaced(before: Ledger, after: Ledger, new_wasm_hash: [u8; 32]) -> bool {
    let v = version_in(before);
    let version = ContractVersion {
        patch: (v.patch + 1) as u32,
        upgraded_at: before.clock.timestamp,
        ..v
    };
    let event = after.events@.last();
    &&& after == (Ledger {
        access: AccessState {
            version: Some(version),
            wasm_hash: Some(new_wasm_hash),
            ..before.access
        },
        admin_log: after.admin_log,
        events: after.events,
        ..before
    })
    &&& after.admin_log@ == before.admin_log@.push(
        AdminAction {
            actor: before.access.admin->0,
            action: "upgrade",
            target: AdminTarget::Label("contract"),
            before: "",
            after: AdminOutcome::Label("wasm_updated"),
        },
    )
    &&& after.events@ == before.events@.push(event)
    &&& event is ContractUpgraded
    &&& announces_upgrade(
        event->ContractUpgraded_0,
        before,
        new_wasm_hash,
        version,
    )
}

/// The ledger after the schema moved on without rewriting quotes.
pub open spec fn schema_moved(before: Ledger, after: Ledger, new_schema_version: u32) -> bool {
    &&& after == (Ledger { access: after.access, ..before })
    &&& version_advanced(
        before.access,
        after.access,
        new_schema_version,
        before.clock.timestamp,
    )
}

/// The ledger after a batch of quotes was rewritten for a newer schema.
pub open spec fn quotes_moved(
    before: Ledger,
    after: Ledger,
    new_schema_version: u32,
    batch_size: u32,
) -> bool {
    let m = migration_of(before.quotes, batch_size);
    &&& after == (Ledger {
        access: after.access,
        admin_log: after.admin_log,
        quotes: QuoteState {
            records: after.quotes.records,
            legacy: after.quotes.legacy,
            migration_cursor: if m.stopped {
                Some(m.last)
            } else {
                None
            },
            ..before.quotes
        },
        ..before
    })
    &&& after.quotes.records@ == m.records
    &&& after.quotes.legacy@ == m.legacy
    &&& after.admin_log@ == (if m.migrated > 0 {
        before.admin_log@.push(migration_entry(before, m.migrated))
    } else {
        before.admin_log@
    })
    &&& if m.stopped {
        after.access == before.access
    } else {
        version_advanced(
            before.access,
            after.access,
            new_schema_version,
            before.clock.timestamp,
        )
    }
}

impl AnchorKitContract {
    /// Initialises the contract with an admin, once.
    pub fn initialize(env: &mut Ledger, admin: Address) -> (r: Result<(), ContractError>)
        ensures
            follows(r, initialize_refusal(*old(env), admin)),
            r is Err ==> *final(env) == *old(env),
            r is Ok ==> initialized_by(*old(env), *final(env), admin),
    {
        if let Err(e) = env.require_auth(&admin) {
            return Err(e);
        }
        if env.access.initialized {
            return Err(ContractError::Code(ErrorCode::AlreadyInitialized));
        }
        env.access.initialized = true;
        env.access.admin = Some(admin);
        env.access.schema_version = SCHEMA_V1;
        let timestamp: u64 = env.clock.timestamp;
        env.publish(Event::ContractInitialized(ContractInitializedEvent { admin, timestamp }));
        Ok(())
    }

    /// Whether the contract was initialised.
    pub fn is_initialized(env: &Ledger) -> (r: bool)
        ensures
            r == env.access.initialized,
    {
        env.access.initialized
    }

    /// The admin.
    pub fn get_admin(env: &Ledger) -> (r: Result<Address, ContractError>)
        ensures
            follows(r, refuse_when(env.access.admin is None, ErrorCode::NotInitialized)),
            r is Ok ==> env.access.admin == Some(r->Ok_0),
    {
        match env.access.admin {
            Some(a) => Ok(a),
            None => Err(ContractError::Code(ErrorCode::NotInitialized)),
        }
    }

    /// Nominates the next admin, in place of any nominated before.
    pub fn propose_admin_transfer(env: &mut Ledger, new_admin: Address) -> (r: Result<
        (),
        ContractError,
    >)
        ensures
            follows(r, admin_refusal(*old(env))),
            r is Err ==> *final(env) == *old(env),
            r is Ok ==> admin_proposed(*old(env), *final(env), new_admin),
    {
        if let Err(e) = env.require_admin() {
            return Err(e);
        }
        env.access.pending_admin = Some(new_admin);
        env.publish(Event::AdminProposed(new_admin));
        Ok(())
    }

    /// Makes the nominated admin the admin, with its own authorisation.
    pub fn accept_admin_transfer(env: &mut Ledger) -> (r: Result<(), ContractError>)
        ensures
            follows(r, succession_refusal(*old(env))),
            r is Err ==> *final(env) == *old(env),
            r is Ok ==> admin_accepted(*old(env), *final(env)),
    {
        let new_admin = match env.access.pending_admin {
            Some(a) => a,
            None => {
                return Err(ContractError::Code(ErrorCode::NotInitialized));
            },
        };
        if let Err(e) = env.require_auth(&new_admin) {
            return Err(e);
        }
        env.access.admin = Some(new_admin);
        env.access.pending_admin = None;
        env.publish(Event::AdminAccepted(new_admin));
        Ok(())
    }

    /// Grants a role. Granting one that is held already changes nothing.
    pub fn grant_role(env: &mut Ledger, grantee: Address, role: AdminRole) -> (r: Result<
        (),
        ContractError,
    >)
        ensures
            follows(r, admin_refusal(*old(env))),
            r is Err ==> *final(env) == *old(env),
            r is Ok && role_granted(*old(env), grantee, role) ==> *final(env) == *old(env),
            r is Ok && !role_granted(*old(env), grantee, role) ==> role_given(
                *old(env),
                *final(env),
                grantee,
                role,
            ),
    {
        let admin = match env.require_admin() {
            Err(e) => {
                return Err(e);
            },
            Ok(a) => a,
        };
        if env.is_role_granted(&grantee, role) {
            return Ok(());
        }
        env.access.roles.set((role, grantee), true);
        env.log_action(admin, "grant_role", AdminTarget::Account(grantee), "", role_name(role));
        env.publish(Event::RoleGranted(grantee, role));
        Ok(())
    }

    /// Withdraws a role. Withdrawing one that was not granted changes nothing.
    pub fn revoke_role(env: &mut Ledger, grantee: Address, role: AdminRole) -> (r: Result<
        (),
        ContractError,
    >)
        ensures
            follows(r, admin_refusal(*old(env))),
            r is Err ==> *final(env) == *old(env),
            r is Ok && !role_granted(*old(env), grantee, role) ==> *final(env) == *old(env),
            r is Ok && role_granted(*old(env), grantee, role) ==> role_withdrawn(
                *old(env),
                *final(env),
                grantee,
                role,
            ),
    {
        let admin = match env.require_admin() {
            Err(e) => {
                return Err(e);
            },
            Ok(a) => a,
        };
        if !env.is_role_granted(&grantee, role) {
            return Ok(());
        }
        env.access.roles.remove(&(role, grantee));
        env.log_action(admin, "revoke_role", AdminTarget::Account(grantee), role_name(role), "");
        env.publish(Event::RoleRevoked(grantee, role));
        Ok(())
    }

    /// Whether an address is the admin or has a role.
    pub fn has_role(env: &Ledger, address: Address, role: AdminRole) -> (r: bool)
        ensures
            r == holds_role(*env, address, role),
    {
        env.has_role(&address, role)
    }

    /// Grants a capability. Granting one that is held already changes nothing.
    pub fn grant_capability(env: &mut Ledger, grantee: Address, capability: AdminCapability) -> (r:
        Result<(), ContractError>)
        ensures
            follows(r, admin_refusal(*old(env))),
            r is Err ==> *final(env) == *old(env),
            r is Ok && capability_granted(*old(env), grantee, capability) ==> *final(env) == *old(env),
            r is Ok && !capability_granted(*old(env), grantee, capability) ==> capability_given(
                *old(env),
                *final(env),
                grantee,
                capability,
            ),
    {
        let admin = match env.require_admin() {
            Err(e) => {
                return Err(e);
            },
            Ok(a) => a,
        };
        if env.is_capability_granted(&grantee, capability) {
            return Ok(());
        }
        env.access.capabilities.set((capability, grantee), true);
        env.log_action(
            admin,
            "grant_capability",
            AdminTarget::Account(grantee),
            "",
            capability_name(capability),
        );
        env.publish(Event::CapabilityGranted(grantee, capability));
        Ok(())
    }

    /// Withdraws a capability. Withdrawing one that was not granted changes
    /// nothing.
    pub fn revoke_capability(
        env: &mut Ledger,
        grantee: Address,
        capability: AdminCapability,
    ) -> (r: Result<(), ContractError>)
        ensures
            follows(r, admin_refusal(*old(env))),
            r is Err ==> *final(env) == *old(env),
            r is Ok && !capability_granted(*old(env), grantee, capability) ==> *final(env) == *old(env),
            r is Ok && capability_granted(*old(env), grantee, capability) ==> capability_withdrawn(
                *old(env),
                *final(env),
                grantee,
                capability,
            ),
    {
        let admin = match env.require_admin() {
            Err(e) => {
                return Err(e);
            },
            Ok(a) => a,
        };
        if !env.is_capability_granted(&grantee, capability) {
            return Ok(());
        }
        env.access.capabilities.remove(&(capability, grantee));
        env.log_action(
            admin,
            "revoke_capability",
            AdminTarget::Account(grantee),
            capability_name(capability),
            "",
        );
        env.publish(Event::CapabilityRevoked(grantee, capability));
        Ok(())
    }

    /// Whether an address is the admin or has a capability.
    pub fn has_capability(env: &Ledger, address: Address, capability: AdminCapability) -> (r: bool)
        ensures
            r == holds_capability(*env, address, capability),
    {
        env.has_capability(&address, capability)
    }

    /// The version in force.
    pub fn get_version(env: &Ledger) -> (v: ContractVersion)
        ensures
            v == version_in(*env),
    {
        match env.access.version {
            Some(v) => v,
            None => ContractVersion { major: 0, minor: 1, patch: 0, upgraded_at: 0 },
        }
    }

    /// Goes over to new code: the patch number goes up, and the change is
    /// logged and announced. Code without a hash is refused.
    pub fn upgrade(env: &mut Ledger, new_wasm_hash: [u8; 32]) -> (r: Result<(), ContractError>)
        requires
            version_in(*old(env)).patch < u32::MAX,
        ensures
            follows(r, upgrade_refusal(*old(env), new_wasm_hash)),
            r is Err ==> *final(env) == *old(env),
            r is Ok ==> code_replaced(*old(env), *final(env), new_wasm_hash),
    {
        if !env.access.initialized {
            return Err(ContractError::Code(ErrorCode::NotInitialized));
        }
        let admin = match env.require_duty(Duty::Upgrade) {
            Err(e) => {
                return Err(e);
            },
            Ok(a) => a,
        };
        if hash_is_zero(&new_wasm_hash) {
            return Err(ContractError::Code(ErrorCode::ValidationError));
        }
        let now: u64 = env.clock.timestamp;
        let old_version = Self::get_version(env);
        let old_wasm_hash = match env.access.wasm_hash {
            Some(h) => h,
            None => [0u8; 32],
        };
        let new_version = old_version.bump_patch(now);
        env.access.version = Some(new_version);
        env.access.wasm_hash = Some(new_wasm_hash);
        env.log_action(admin, "upgrade", AdminTarget::Label("contract"), "", "wasm_updated");
        env.publish(
            Event::ContractUpgraded(
                UpgradeEvent {
                    old_wasm_hash,
                    new_wasm_hash,
                    new_major: new_version.major,
                    new_minor: new_version.minor,
                    new_patch: new_version.patch,
                    upgraded_at: now,
                },
            ),
        );
        Ok(())
    }

    /// Goes on to a newer schema. Quotes are rewritten in batches; the version
    /// advances once all of them are.
    pub fn migrate(env: &mut Ledger, new_schema_version: u32, batch_size: u32) -> (r: Result<
        (),
        ContractError,
    >)
        ensures
            follows(r, migrate_refusal(*old(env), new_schema_version, batch_size)),
            r is Err ==> *final(env) == *old(env),
            r is Ok && !rewrites_quotes(*old(env), new_schema_version) ==> schema_moved(
                *old(env),
                *final(env),
                new_schema_version,
            ),
            r is Ok && rewrites_quotes(*old(env), new_schema_version) ==> quotes_moved(
                *old(env),
                *final(env),
                new_schema_version,
                batch_size,
            ),
    {
        if !env.access.initialized {
            return Err(ContractError::Code(ErrorCode::NotInitialized));
        }
        let admin = match env.require_duty(Duty::Migrate) {
            Err(e) => {
                return Err(e);
            },
            Ok(a) => a,
        };
        let current: u32 = current_version(env);
        match validate_migration(current, new_schema_version) {
            Ok(_) => {},
            Err(MigrationError::InvalidTargetVersion) => {
                return Err(ContractError::Code(ErrorCode::ValidationError));
            },
            Err(MigrationError::VersionTooNew) => {
                return Err(ContractError::Code(ErrorCode::UnsupportedCapabilityVersion));
            },
            Err(MigrationError::VersionNotAdvancing) => {
                return Err(ContractError::Code(ErrorCode::ValidationError));
            },
        }
        let pending = env.quotes.migration_cursor.is_some();
        if new_schema_version >= SCHEMA_V2 && (current < SCHEMA_V2 || pending) {
            let migrated: u32 = match Self::migrate_quotes_to_v2(env, batch_size) {
                Err(e) => {
                    return Err(e);
                },
                Ok(n) => n,
            };
            if migrated > 0 {
                env.admin_log.push(
                    AdminAction {
                        actor: admin,
                        action: "schema_migration",
                        target: AdminTarget::Label("quotes"),
                        before: "v1",
                        after: AdminOutcome::MigratedQuotes(migrated),
                    },
                );
            }
            if env.quotes.migration_cursor.is_some() {
                return Ok(());
            }
        }
        env.access.schema_version = new_schema_version;
        let migrated_at: u64 = env.clock.timestamp;
        env.access.migrations.push(
            MigrationRecord { from_version: current, to_version: new_schema_version, migrated_at },
        );
        Ok(())
    }

    /// How many migrations are on record.
    pub fn get_migration_count(env: &Ledger) -> (n: u32)
        requires
            env.access.migrations@.len() <= u32::MAX,
        ensures
            n == env.access.migrations@.len(),
    {
        env.access.migrations.len() as u32
    }

    /// One migration on record, counted from zero.
    pub fn get_migration_record(env: &Ledger, idx: u32) -> (r: Result<
        MigrationRecord,
        ContractError,
    >)
        ensures
            follows(
                r,
                refuse_when(idx >= env.access.migrations@.len(), ErrorCode::ValidationError),
            ),
            r is Ok ==> r->Ok_0 == env.access.migrations@[idx as int],
    {
        if (idx as usize) < env.access.migrations.len() {
            Ok(env.access.migrations[idx as usize])
        } else {
            Err(ContractError::Code(ErrorCode::ValidationError))
        }
    }

    /// The schema version in force.
    pub fn get_schema_version(env: &Ledger) -> (n: u32)
        ensures
            n == env.access.schema_version,
    {
        current_version(env)
    }
}

/// The admin has every role and every capability.
pub proof fn the_admin_may_do_everything(env: Ledger, a: Address, role: AdminRole, cap: AdminCapability)
    requires
        is_admin(env, a),
    ensures
        holds_role(env, a, role),
        holds_capability(env, a, cap),
{
}

/// A duty is open to a call that the admin or one entrusted with it signed, and
/// to no other.
pub proof fn duties_are_open_to_delegates(env: Ledger, duty: Duty, admin: Address)
    requires
        is_admin(env, admin),
    ensures
        env.auth.covers(admin) ==> duty_refusal(env, duty) is None,
        forall|a: Address| #[trigger]
            env.auth.signers@.contains(a) && entrusted(env, duty, a) ==> duty_refusal(env, duty) is None,
        !env.auth.all && (forall|a: Address| #[trigger]
            env.auth.signers@.contains(a) ==> !entrusted(env, duty, a)) ==> duty_refusal(env, duty)
            == Some(unsigned_duty(duty, admin)),
{
    assert forall|a: Address| #[trigger]
        env.auth.signers@.contains(a) && entrusted(env, duty, a) implies duty_refusal(env, duty) is None by {
        let i = choose|i: int| 0 <= i < env.auth.signers@.len() && env.auth.signers@[i] == a;
        assert(entrusted(env, duty, env.auth.signers@[i]));
    }
    if !env.auth.all && (forall|a: Address| #[trigger]
        env.auth.signers@.contains(a) ==> !entrusted(env, duty, a)) {
        assert(entrusted(env, duty, admin));
        assert(!env.auth.signers@.contains(admin));
        if signed_by_delegate(env, duty) {
            let i = choose|i: int|
                0 <= i < env.auth.signers@.len() && entrusted(env, duty, #[trigger] env.auth.signers@[i]);
            assert(env.auth.signers@.contains(env.auth.signers@[i]));
        }
    }
}

/// Who was granted a role or a capability has it; who had it withdrawn does not,
/// unless they are the admin; and nobody else is affected.
pub proof fn grants_take_effect(
    before: Ledger,
    granted: Ledger,
    revoked: Ledger,
    a: Address,
    other: Address,
    role: AdminRole,
    cap: AdminCapability,
)
    requires
        granted.access.admin == before.access.admin,
        granted.access.roles@ == before.access.roles@.insert((role, a), true),
        granted.access.capabilities@ == before.access.capabilities@.insert((cap, a), true),
        revoked.access.admin == before.access.admin,
        revoked.access.roles@ == before.access.roles@.remove((role, a)),
        revoked.access.capabilities@ == before.access.capabilities@.remove((cap, a)),
    ensures
        holds_role(granted, a, role),
        holds_capability(granted, a, cap),
        holds_role(revoked, a, role) == is_admin(before, a),
        holds_capability(revoked, a, cap) == is_admin(before, a),
        forall|r2: AdminRole|
            other != a ==> #[trigger] holds_role(granted, other, r2) == holds_role(
                before,
                other,
                r2,
            ),
        forall|r2: AdminRole|
            r2 != role ==> #[trigger] holds_role(granted, a, r2) == holds_role(before, a, r2),
        forall|c2: AdminCapability|
            other != a ==> #[trigger] holds_capability(granted, other, c2) == holds_capability(
                before,
                other,
                c2,
            ),
        forall|c2: AdminCapability|
            c2 != cap ==> #[trigger] holds_capability(granted, a, c2) == holds_capability(
                before,
                a,
                c2,
            ),
{
}

/// The schema version only ever goes up, and never past the newest.
pub proof fn versions_only_advance(env: Ledger, target: u32, batch_size: u32)
    requires
        migrate_refusal(env, target, batch_size) is None,
    ensures
        env.access.schema_version < target <= LATEST_SCHEMA_VERSION,
{
}

} // verus!
