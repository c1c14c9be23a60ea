//! Schema versions and the steps between them.
use crate::contract::ledger::Ledger;
use vstd::prelude::*;

verus! {

/// The first schema.
pub const SCHEMA_V1: u32 = 1;

/// The schema of quotes with a routing reason.
pub const SCHEMA_V2: u32 = 2;

/// The newest schema.
pub const LATEST_SCHEMA_VERSION: u32 = 2;

/// A step that was taken.
#[derive(Clone, Copy, Debug, PartialEq, Eq, Structural)]
pub struct MigrationRecord {
    pub from_version: u32,
    pub to_version: u32,
    pub migrated_at: u64,
}

/// Why a target version is refused.
#[derive(Clone, Copy, Debug, PartialEq, Eq, Structural)]
pub enum MigrationError {
    InvalidTargetVersion,
    VersionTooNew,
    VersionNotAdvancing,
}

/// The refusal of a target version.
pub open spec fn target_error(current: u32, target: u32) -> Option<MigrationError> {
    if target == 0 {
        Some(MigrationError::InvalidTargetVersion)
    } else if target > LATEST_SCHEMA_VERSION {
        Some(MigrationError::VersionTooNew)
    } else if target <= current {
        Some(MigrationError::VersionNotAdvancing)
    } else {
        None
    }
}

/// The schema version in force.
pub fn current_version(env: &Ledger) -> (n: u32)
    ensures
        n == env.access.schema_version,
{
    env.access.schema_version
}

/// Refuses a target that is zero, unknown, or not past the current version.
pub fn validate_migration(current: u32, target: u32) -> (r: Result<(), MigrationError>)
    ensures
        match target_error(current, target) {
            Some(e) => r == Err::<(), MigrationError>(e),
            None => r is Ok,
        },
{
    if target == 0 {
        Err(MigrationError::InvalidTargetVersion)
    } else if target > LATEST_SCHEMA_VERSION {
        Err(MigrationError::VersionTooNew)
    } else if target <= current {
        Err(MigrationError::VersionNotAdvancing)
    } else {
        Ok(())
    }
}

} // verus!
