//! The life of a transaction record.
use crate::address::Address;
use vstd::prelude::*;

verus! {

/// Where a transaction stands.
#[derive(Clone, Copy, Debug, PartialEq, Eq, Structural)]
pub enum TransactionState {
    Pending,
    InProgress,
    Completed,
    Failed,
}

impl TransactionState {
    /// Whether the transaction has ended.
    pub open spec fn terminal(self) -> bool {
        self == TransactionState::Completed || self == TransactionState::Failed
    }

    /// The steps of a transaction: it starts, and it completes or fails.
    pub open spec fn may_become(self, next: TransactionState) -> bool {
        match (self, next) {
            (TransactionState::Pending, TransactionState::InProgress) => true,
            (TransactionState::Pending, TransactionState::Failed) => true,
            (TransactionState::InProgress, TransactionState::Completed) => true,
            (TransactionState::InProgress, TransactionState::Failed) => true,
            _ => false,
        }
    }

    /// Whether the transaction has ended.
    pub fn is_terminal(self) -> (r: bool)
        ensures
            r == self.terminal(),
    {
        match self {
            TransactionState::Completed => true,
            TransactionState::Failed => true,
            _ => false,
        }
    }

    /// Whether the step is one of a transaction's.
    pub fn is_valid_transition(self, next: TransactionState) -> (r: bool)
        ensures
            r == self.may_become(next),
    {
        match (self, next) {
            (TransactionState::Pending, TransactionState::InProgress) => true,
            (TransactionState::Pending, TransactionState::Failed) => true,
            (TransactionState::InProgress, TransactionState::Completed) => true,
            (TransactionState::InProgress, TransactionState::Failed) => true,
            _ => false,
        }
    }
}

/// A transaction that has ended takes no further step.
pub proof fn ended_transactions_stay(from: TransactionState, to: TransactionState)
    ensures
        from.terminal() ==> !from.may_become(to),
{
}

/// How a failed transaction came to fail.
#[derive(Debug, PartialEq, Eq)]
pub struct RecoveryMetadata {
    pub failure_reason: String,
    pub last_updated_ledger: u32,
    pub failed_from_state: TransactionState,
    pub retry_count: u32,
}

/// A transaction with its history.
#[derive(Debug, PartialEq, Eq)]
pub struct TransactionStateRecord {
    pub transaction_id: u64,
    pub state: TransactionState,
    pub initiator: Address,
    pub timestamp: u64,
    pub last_updated: u64,
    pub last_updated_ledger: u32,
    pub error_message: Option<String>,
    pub state_history: Vec<(TransactionState, u64)>,
    pub recovery_metadata: Option<RecoveryMetadata>,
    pub routing_reason: Option<String>,
}

/// How much storage the transaction records take.
#[derive(Clone, Copy, Debug, PartialEq, Eq, Structural)]
pub struct StorageBudgetReport {
    pub entry_count: u64,
    pub approx_bytes: u64,
    pub warning_bytes: u64,
    pub critical_bytes: u64,
    pub warning: bool,
    pub critical: bool,
}

} // verus!
