//! Transaction records and the storage they take.
use crate::address::Address;
use crate::arith::{capped_product, mul_capped};
use crate::contract::events::Event;
use crate::contract::ledger::{
    admin_refusal, either, follows, refuse_when, AnchorKitContract, ConfigState, ContractError,
    Ledger, TransactionStore,
};
use crate::contract::types::{
    copy_text, TransactionStatusSummary, APPROX_TXSTATE_RECORD_BYTES,
    DEFAULT_TXBUDGET_CRITICAL_BYTES, DEFAULT_TXBUDGET_WARNING_BYTES, ENDED_TRANSACTION_TTL,
    INSTANCE_TTL, PERSISTENT_TTL, REPLAY_TTL, SPAN_TTL,
};
use crate::errors::ErrorCode;
use crate::lists::{filtered_once, pushed_once};
use crate::sorting::{is_sorted_order, lists_each, sorted_order, Lowest};
use crate::transaction_state_tracker::{
    RecoveryMetadata, StorageBudgetReport, TransactionState, TransactionStateRecord,
};
use vstd::prelude::*;

verus! {

/// How many records are evicted at a time unless configured otherwise.
pub const DEFAULT_EVICTIONS: u32 = 10;

/// The size from which the storage is under pressure.
pub open spec fn warning_bytes_in(env: Ledger) -> u64 {
    match env.config.budget_warning {
        Some(n) => n,
        None => DEFAULT_TXBUDGET_WARNING_BYTES,
    }
}

/// The size from which the storage is under critical pressure.
pub open spec fn critical_bytes_in(env: Ledger) -> u64 {
    match env.config.budget_critical {
        Some(n) => n,
        None => DEFAULT_TXBUDGET_CRITICAL_BYTES,
    }
}

/// The report for a number of records.
pub open spec fn budget_report(env: Ledger, entries: int) -> StorageBudgetReport {
    let bytes = capped_product(entries as u64, APPROX_TXSTATE_RECORD_BYTES);
    StorageBudgetReport {
        entry_count: entries as u64,
        approx_bytes: bytes,
        warning_bytes: warning_bytes_in(env),
        critical_bytes: critical_bytes_in(env),
        warning: bytes >= warning_bytes_in(env),
        critical: bytes >= critical_bytes_in(env),
    }
}

/// How many records are evicted at a time.
pub open spec fn evictions_in(env: Ledger) -> u32 {
    match env.config.eviction_max {
        Some(n) => n,
        None => DEFAULT_EVICTIONS,
    }
}

/// Whether a new record makes room first: eviction is on and the storage is
/// under pressure.
pub open spec fn evicts_first(env: Ledger) -> bool {
    let report = budget_report(env, env.transactions.ids@.len() as int);
    env.config.eviction_enabled == Some(true) && (report.warning || report.critical)
}

/// Whether a stored transaction has ended.
pub open spec fn is_ended(env: Ledger, id: u64) -> bool {
    env.transactions.records@.contains_key(id) && env.transactions.records@[id].state.terminal()
}

/// The listed transactions that have ended.
pub open spec fn ended_ids(env: Ledger) -> Seq<u64> {
    env.transactions.ids@.filter(ended_in(env))
}

/// Holds of the transactions that have ended.
pub open spec fn ended_in(env: Ledger) -> spec_fn(u64) -> bool {
    |id: u64| is_ended(env, id)
}

/// The times of transactions, as ranks.
pub open spec fn times_of(env: Ledger, ids: Seq<u64>) -> Seq<Lowest> {
    ids.map_values(|id: u64| Lowest { key: env.transactions.records@[id].timestamp })
}

/// Whether `evicted` lists the oldest ended transactions, `max` at most.
pub open spec fn are_oldest_ended(env: Ledger, max: u32, evicted: Seq<u64>) -> bool {
    let all = ended_ids(env);
    exists|order: Seq<usize>|
        {
            &&& is_sorted_order(times_of(env, all), order)
            &&& lists_each(order, all.len() as int)
            &&& evicted.len() == (if all.len() <= max {
                all.len() as int
            } else {
                max as int
            })
            &&& #[trigger] picks_ids(all, order, evicted)
        }
}

/// Whether `evicted` consists of the ids at the first positions of `order`.
pub open spec fn picks_ids(all: Seq<u64>, order: Seq<usize>, evicted: Seq<u64>) -> bool {
    forall|i: int| 0 <= i < evicted.len() ==> #[trigger] evicted[i] == all[order[i] as int]
}

/// The transactions after some were evicted.
pub open spec fn without_evicted(
    before: TransactionStore,
    after: TransactionStore,
    evicted: Seq<u64>,
) -> bool {
    &&& after.records@ == before.records@.remove_keys(Set::new(|id: u64| evicted.contains(id)))
    &&& after.ids@ == before.ids@.filter(|id: u64| !evicted.contains(id))
}

/// The announcement of an eviction, where there was one.
pub open spec fn events_after_eviction(events: Seq<Event>, evicted: Seq<u64>) -> Seq<Event> {
    if evicted.len() > 0 {
        events.push(Event::RecordsEvicted(evicted.len() as u32))
    } else {
        events
    }
}

/// Whether `r` is a new record.
pub open spec fn is_new_record(
    r: TransactionStateRecord,
    env: Ledger,
    transaction_id: u64,
    initiator: Address,
    routing_reason: Option<String>,
) -> bool {
    let now = env.clock.timestamp;
    &&& r.transaction_id == transaction_id
    &&& r.state == TransactionState::Pending
    &&& r.initiator == initiator
    &&& r.timestamp == now
    &&& r.last_updated == now
    &&& r.last_updated_ledger == env.clock.sequence
    &&& r.error_message is None
    &&& r.state_history@ == seq![(TransactionState::Pending, now)]
    &&& r.recovery_metadata is None
    &&& r.routing_reason == routing_reason
}

/// Whether two records have the same contents.
pub open spec fn same_record(a: TransactionStateRecord, b: TransactionStateRecord) -> bool {
    &&& a == (TransactionStateRecord { state_history: a.state_history, ..b })
    &&& a.state_history@ == b.state_history@
}

/// The announcements after the storage was looked at.
pub open spec fn events_after_report(events: Seq<Event>, report: StorageBudgetReport) -> Seq<Event> {
    if report.critical {
        events.push(Event::BudgetCritical(report.entry_count, report.approx_bytes))
    } else if report.warning {
        events.push(Event::BudgetWarning(report.entry_count, report.approx_bytes))
    } else {
        events
    }
}

/// The list with an id in it, once.
pub open spec fn with_id(ids: Seq<u64>, id: u64) -> Seq<u64> {
    if ids.contains(id) {
        ids
    } else {
        ids.push(id)
    }
}

/// The ledger after a record was created: room was made first where needed, the
/// record is stored and listed once, and pressure on the storage is announced.
pub open spec fn record_created(
    before: Ledger,
    after: Ledger,
    evicted: Seq<u64>,
    transaction_id: u64,
    initiator: Address,
    routing_reason: Option<String>,
) -> bool {
    let gone = Set::new(|id: u64| evicted.contains(id));
    let kept = before.transactions.ids@.filter(|id: u64| !evicted.contains(id));
    let record = after.transactions.records@[transaction_id];
    &&& if evicts_first(before) {
        are_oldest_ended(before, evictions_in(before), evicted)
    } else {
        evicted.len() == 0
    }
    &&& after == (Ledger { transactions: after.transactions, events: after.events, ..before })
    &&& after.transactions.records@ == before.transactions.records@.remove_keys(gone).insert(
        transaction_id,
        record,
    )
    &&& is_new_record(record, before, transaction_id, initiator, routing_reason)
    &&& after.transactions.ids@ == with_id(kept, transaction_id)
    &&& after.events@ == events_after_report(
        events_after_eviction(before.events@, evicted),
        budget_report(before, with_id(kept, transaction_id).len() as int),
    )
}

/// What is written to the storage, by how long it is kept there.
#[derive(Clone, Copy, Debug, PartialEq, Eq, Structural)]
pub enum EntryKind {
    /// The settings of the contract.
    Instance,
    /// An entry without a lifetime of its own.
    Persistent,
    /// The span of a traced operation.
    Span,
    /// The mark of a used payload.
    Replay,
    /// The record of a transaction in a state.
    Transaction(TransactionState),
}

/// The lifetime that is asked for when an entry is written, in ledgers: shorter
/// for a transaction that has ended than for one that goes on.
pub open spec fn lifetime_of(kind: EntryKind) -> u32 {
    match kind {
        EntryKind::Instance => INSTANCE_TTL,
        EntryKind::Persistent => PERSISTENT_TTL,
        EntryKind::Span => SPAN_TTL,
        EntryKind::Replay => REPLAY_TTL,
        EntryKind::Transaction(state) => if state.terminal() {
            ENDED_TRANSACTION_TTL
        } else {
            PERSISTENT_TTL
        },
    }
}

/// The lifetime that is asked for when an entry is written, in ledgers.
pub fn entry_lifetime(kind: EntryKind) -> (n: u32)
    ensures
        n == lifetime_of(kind),
{
    match kind {
        EntryKind::Instance => INSTANCE_TTL,
        EntryKind::Persistent => PERSISTENT_TTL,
        EntryKind::Span => SPAN_TTL,
        EntryKind::Replay => REPLAY_TTL,
        EntryKind::Transaction(state) => if state.is_terminal() {
            ENDED_TRANSACTION_TTL
        } else {
            PERSISTENT_TTL
        },
    }
}

/// The record of a transaction is asked to be kept for a shorter time once the
/// transaction has ended.
pub proof fn ended_transactions_are_kept_shorter(ended: TransactionState, running: TransactionState)
    requires
        ended.terminal(),
        !running.terminal(),
    ensures
        lifetime_of(EntryKind::Transaction(ended)) < lifetime_of(EntryKind::Transaction(running)),
{
}

/// The largest number of records that a range query returns.
pub const MAX_RANGE: u32 = 100;

/// How many records a range query returns at most.
pub open spec fn range_limit(limit: u32) -> u32 {
    if limit < MAX_RANGE {
        limit
    } else {
        MAX_RANGE
    }
}

/// Whether `ids` lists the stored ids from `from` up to `to`, ascending.
pub open spec fn lists_stored(env: Ledger, from: u64, to: int, ids: Seq<u64>) -> bool {
    &&& forall|i: int, j: int| 0 <= i < j < ids.len() ==> ids[i] < ids[j]
    &&& forall|i: int| 0 <= i < ids.len() ==> from <= #[trigger] ids[i] < to
    &&& forall|x: u64|
        from <= x < to ==> #[trigger] ids.contains(x) == env.transactions.records@.contains_key(x)
}

/// Whether `ids` lists the first stored ids of a range: all of them up to some
/// end, which is the end of the range unless the limit was reached.
pub open spec fn is_id_page(env: Ledger, from_id: u64, to_id: u64, limit: u32, ids: Seq<u64>) -> bool {
    if from_id > to_id {
        ids.len() == 0
    } else {
        exists|end: int|
            {
                &&& from_id <= end <= to_id + 1
                &&& #[trigger] lists_stored(env, from_id, end, ids)
                &&& ids.len() <= range_limit(limit)
                &&& end <= to_id ==> ids.len() == range_limit(limit)
            }
    }
}

/// How many of the listed transactions are stored in a state.
pub open spec fn in_state_count(env: Ledger, ids: Seq<u64>, state: TransactionState) -> int
    decreases ids.len(),
{
    if ids.len() == 0 {
        0
    } else {
        in_state_count(env, ids.drop_last(), state) + (if env.transactions.records@.contains_key(
            ids.last(),
        ) && env.transactions.records@[ids.last()].state == state {
            1int
        } else {
            0int
        })
    }
}

/// Why a step of a transaction is refused.
pub open spec fn advance_refusal(env: Ledger, transaction_id: u64, next: TransactionState) -> Option<
    ContractError,
> {
    either(
        refuse_when(
            !env.transactions.records@.contains_key(transaction_id),
            ErrorCode::TransactionNotFound,
        ),
        refuse_when(
            !env.transactions.records@[transaction_id].state.may_become(next),
            ErrorCode::IllegalTransition,
        ),
    )
}

/// Whether `after` is the record `before` after a step; a failure notes its
/// reason and the state it came from.
pub open spec fn is_advanced(
    before: TransactionStateRecord,
    after: TransactionStateRecord,
    env: Ledger,
    next: TransactionState,
    error_message: Option<String>,
) -> bool {
    let now = env.clock.timestamp;
    &&& after == (TransactionStateRecord {
        state: next,
        last_updated: now,
        last_updated_ledger: env.clock.sequence,
        error_message,
        state_history: after.state_history,
        recovery_metadata: after.recovery_metadata,
        ..before
    })
    &&& after.state_history@ == before.state_history@.push((next, now))
    &&& if next == TransactionState::Failed {
        &&& after.recovery_metadata is Some
        &&& after.recovery_metadata->0.failure_reason@ == (match error_message {
            Some(m) => m@,
            None => "unspecified failure"@,
        })
        &&& after.recovery_metadata->0.last_updated_ledger == env.clock.sequence
        &&& after.recovery_metadata->0.failed_from_state == before.state
        &&& after.recovery_metadata->0.retry_count == 0
    } else {
        after.recovery_metadata == before.recovery_metadata
    }
}

/// The ledger after a step of a transaction.
pub open spec fn advanced(
    before: Ledger,
    after: Ledger,
    transaction_id: u64,
    next: TransactionState,
    error_message: Option<String>,
) -> bool {
    let record = after.transactions.records@[transaction_id];
    &&& after == (Ledger {
        transactions: TransactionStore {
            records: after.transactions.records,
            ..before.transactions
        },
        ..before
    })
    &&& after.transactions.records@ == before.transactions.records@.insert(transaction_id, record)
    &&& is_advanced(
        before.transactions.records@[transaction_id],
        record,
        before,
        next,
        error_message,
    )
}

fn copy_history(history: &Vec<(TransactionState, u64)>) -> (r: Vec<(TransactionState, u64)>)
    ensures
        r@ == history@,
{
    let mut r: Vec<(TransactionState, u64)> = Vec::new();
    let mut i: usize = 0;
    while i < history.len()
        invariant
            0 <= i <= history@.len(),
            r@ == history@.take(i as int),
        decreases history@.len() - i,
    {
        r.push(history[i]);
        assert(history@.take(i + 1) =~= history@.take(i as int).push(history@[i as int]));
        i = i + 1;
    }
    assert(history@.take(i as int) =~= history@);
    r
}

impl TransactionStateRecord {
    /// A copy.
    pub fn copy(&self) -> (r: Self)
        ensures
            same_record(r, *self),
    {
        let recovery_metadata = match &self.recovery_metadata {
            Some(m) => Some(
                RecoveryMetadata {
                    failure_reason: m.failure_reason.clone(),
                    last_updated_ledger: m.last_updated_ledger,
                    failed_from_state: m.failed_from_state,
                    retry_count: m.retry_count,
                },
            ),
            None => None,
        };
        TransactionStateRecord {
            transaction_id: self.transaction_id,
            state: self.state,
            initiator: self.initiator,
            timestamp: self.timestamp,
            last_updated: self.last_updated,
            last_updated_ledger: self.last_updated_ledger,
            error_message: copy_text(&self.error_message),
            state_history: copy_history(&self.state_history),
            recovery_metadata,
            routing_reason: copy_text(&self.routing_reason),
        }
    }
}

fn lists_id(ids: &Vec<u64>, id: u64) -> (r: bool)
    ensures
        r == ids@.contains(id),
{
    let mut i: usize = 0;
    while i < ids.len()
        invariant
            0 <= i <= ids@.len(),
            forall|j: int| 0 <= j < i ==> ids@[j] != id,
        decreases ids@.len() - i,
    {
        if ids[i] == id {
            return true;
        }
        i = i + 1;
    }
    false
}

/// The ledger after the eviction of ended transactions was set.
pub open spec fn eviction_set(
    before: Ledger,
    after: Ledger,
    enabled: bool,
    max_per_call: u32,
) -> bool {
    after == (Ledger {
        config: ConfigState {
            eviction_enabled: Some(enabled),
            eviction_max: Some(max_per_call),
            ..before.config
        },
        ..before
    })
}

/// Why sizes of storage pressure are refused.
pub open spec fn budget_refusal(
    env: Ledger,
    warning_bytes: u64,
    critical_bytes: u64,
) -> Option<ContractError> {
    either(
        admin_refusal(env),
        refuse_when(
            warning_bytes == 0 || warning_bytes >= critical_bytes,
            ErrorCode::ValidationError,
        ),
    )
}

/// The ledger after the sizes of storage pressure were set.
pub open spec fn budget_set(
    before: Ledger,
    after: Ledger,
    warning_bytes: u64,
    critical_bytes: u64,
) -> bool {
    after == (Ledger {
        config: ConfigState {
            budget_warning: Some(warning_bytes),
            budget_critical: Some(critical_bytes),
            ..before.config
        },
        ..before
    })
}

/// How many listed transactions are stored in each state.
pub open spec fn summary_of(env: Ledger) -> TransactionStatusSummary {
    let ids = env.transactions.ids@;
    TransactionStatusSummary {
        pending_count: in_state_count(env, ids, TransactionState::Pending) as u64,
        in_progress_count: in_state_count(
            env,
            ids,
            TransactionState::InProgress,
        ) as u64,
        completed_count: in_state_count(
            env,
            ids,
            TransactionState::Completed,
        ) as u64,
        failed_count: in_state_count(env, ids, TransactionState::Failed) as u64,
        total_count: (in_state_count(env, ids, TransactionState::Pending)
            + in_state_count(env, ids, TransactionState::InProgress)
            + in_state_count(env, ids, TransactionState::Completed)
            + in_state_count(env, ids, TransactionState::Failed)) as u64,
    }
}

impl AnchorKitContract {
    /// Sets whether ended transactions are evicted under pressure, and how many
    /// at a time.
    pub fn set_eviction_policy(env: &mut Ledger, enabled: bool, max_per_call: u32) -> (r: Result<
        (),
        ContractError,
    >)
        ensures
            follows(r, admin_refusal(*old(env))),
            r is Err ==> *final(env) == *old(env),
            r is Ok ==> eviction_set(*old(env), *final(env), enabled, max_per_call),
    {
        if let Err(e) = env.require_admin() {
            return Err(e);
        }
        env.config.eviction_enabled = Some(enabled);
        env.config.eviction_max = Some(max_per_call);
        Ok(())
    }

    /// Sets the sizes from which the storage is under pressure and under
    /// critical pressure.
    pub fn set_storage_budget_thresholds(
        env: &mut Ledger,
        warning_bytes: u64,
        critical_bytes: u64,
    ) -> (r: Result<(), ContractError>)
        ensures
            follows(r, budget_refusal(*old(env), warning_bytes, critical_bytes)),
            r is Err ==> *final(env) == *old(env),
            r is Ok ==> budget_set(*old(env), *final(env), warning_bytes, critical_bytes),
    {
        if let Err(e) = env.require_admin() {
            return Err(e);
        }
        if warning_bytes == 0 || warning_bytes >= critical_bytes {
            return Err(ContractError::Code(ErrorCode::ValidationError));
        }
        env.config.budget_warning = Some(warning_bytes);
        env.config.budget_critical = Some(critical_bytes);
        Ok(())
    }

    /// How much storage the transaction records take.
    pub fn get_storage_budget_report(env: &Ledger) -> (r: StorageBudgetReport)
        ensures
            r == budget_report(*env, env.transactions.ids@.len() as int),
    {
        let entry_count: u64 = env.transactions.ids.len() as u64;
        let approx_bytes: u64 = mul_capped(entry_count, APPROX_TXSTATE_RECORD_BYTES);
        let warning_bytes: u64 = match env.config.budget_warning {
            Some(n) => n,
            None => DEFAULT_TXBUDGET_WARNING_BYTES,
        };
        let critical_bytes: u64 = match env.config.budget_critical {
            Some(n) => n,
            None => DEFAULT_TXBUDGET_CRITICAL_BYTES,
        };
        StorageBudgetReport {
            entry_count,
            approx_bytes,
            warning_bytes,
            critical_bytes,
            warning: approx_bytes >= warning_bytes,
            critical: approx_bytes >= critical_bytes,
        }
    }

    /// Creates the record of a transaction.
    pub fn create_transaction_record(env: &mut Ledger, transaction_id: u64, initiator: Address) -> (r:
        TransactionStateRecord)
        ensures
            exists|evicted: Seq<u64>|
                #[trigger] record_created(
                    *old(env),
                    *final(env),
                    evicted,
                    transaction_id,
                    initiator,
                    None,
                ),
            same_record(r, final(env).transactions.records@[transaction_id]),
    {
        Self::create_transaction_record_internal(env, transaction_id, initiator, None)
    }

    /// Creates the record of a transaction with the reason for its route.
    pub fn create_txn_record_with_reason(
        env: &mut Ledger,
        transaction_id: u64,
        initiator: Address,
        routing_reason: Option<String>,
    ) -> (r: TransactionStateRecord)
        ensures
            exists|evicted: Seq<u64>|
                #[trigger] record_created(
                    *old(env),
                    *final(env),
                    evicted,
                    transaction_id,
                    initiator,
                    routing_reason,
                ),
            same_record(r, final(env).transactions.records@[transaction_id]),
    {
        Self::create_transaction_record_internal(env, transaction_id, initiator, routing_reason)
    }

    fn create_transaction_record_internal(
        env: &mut Ledger,
        transaction_id: u64,
        initiator: Address,
        routing_reason: Option<String>,
    ) -> (r: TransactionStateRecord)
        ensures
            exists|evicted: Seq<u64>|
                #[trigger] record_created(
                    *old(env),
                    *final(env),
                    evicted,
                    transaction_id,
                    initiator,
                    routing_reason,
                ),
            same_record(r, final(env).transactions.records@[transaction_id]),
    {
        let eviction_enabled = match env.config.eviction_enabled {
            Some(b) => b,
            None => false,
        };
        let mut evicted: Vec<u64> = Vec::new();
        if eviction_enabled {
            let report = Self::get_storage_budget_report(env);
            if report.warning || report.critical {
                let max_per_call: u32 = match env.config.eviction_max {
                    Some(n) => n,
                    None => DEFAULT_EVICTIONS,
                };
                evicted = Self::run_auto_eviction(env, max_per_call);
            }
        }
        let ghost mid = *env;
        proof {
            if evicted@.len() == 0 {
                let keep = |id: u64| !evicted@.contains(id);
                all_are_kept(old(env).transactions.ids@, keep);
                assert(mid.transactions.ids@ =~= old(env).transactions.ids@.filter(keep));
                assert(mid.transactions.records@ =~= old(env).transactions.records@.remove_keys(
                    Set::new(|id: u64| evicted@.contains(id)),
                ));
            }
        }
        let now: u64 = env.clock.timestamp;
        let mut history: Vec<(TransactionState, u64)> = Vec::new();
        history.push((TransactionState::Pending, now));
        assert(history@ =~= seq![(TransactionState::Pending, now)]);
        let record = TransactionStateRecord {
            transaction_id,
            state: TransactionState::Pending,
            initiator,
            timestamp: now,
            last_updated: now,
            last_updated_ledger: env.clock.sequence,
            error_message: None,
            state_history: history,
            recovery_metadata: None,
            routing_reason,
        };
        let copy = record.copy();
        env.transactions.records.set(transaction_id, record);
        if !lists_id(&env.transactions.ids, transaction_id) {
            env.transactions.ids.push(transaction_id);
        }
        let report = Self::get_storage_budget_report(env);
        if report.critical {
            env.publish(Event::BudgetCritical(report.entry_count, report.approx_bytes));
        } else if report.warning {
            env.publish(Event::BudgetWarning(report.entry_count, report.approx_bytes));
        }
        assert(record_created(
            *old(env),
            *env,
            evicted@,
            transaction_id,
            initiator,
            routing_reason,
        ));
        copy
    }

    /// Evicts the oldest ended transactions, and names them.
    fn run_auto_eviction(env: &mut Ledger, max_per_call: u32) -> (evicted: Vec<u64>)
        ensures
            are_oldest_ended(*old(env), max_per_call, evicted@),
            *final(env) == (Ledger {
                transactions: final(env).transactions,
                events: final(env).events,
                ..*old(env)
            }),
            without_evicted(old(env).transactions, final(env).transactions, evicted@),
            final(env).events@ == events_after_eviction(old(env).events@, evicted@),
    {
        let ghost ids = old(env).transactions.ids@;
        let ghost ended = ended_in(*old(env));
        let mut all: Vec<u64> = Vec::new();
        let mut times: Vec<Lowest> = Vec::new();
        let mut i: usize = 0;
        proof {
            reveal(Seq::filter);
            assert(all@ =~= ids.take(0).filter(ended));
            assert(times@ =~= times_of(*env, all@));
        }
        while i < env.transactions.ids.len()
            invariant
                0 <= i <= ids.len(),
                *env == *old(env),
                ids == old(env).transactions.ids@,
                ended == ended_in(*old(env)),
                all@ == ids.take(i as int).filter(ended),
                times@ == times_of(*env, all@),
            decreases ids.len() - i,
        {
            let id: u64 = env.transactions.ids[i];
            let ghost before = all@;
            if let Some(record) = env.transactions.records.get(&id) {
                if record.state.is_terminal() {
                    all.push(id);
                    times.push(Lowest { key: record.timestamp });
                    assert(times@ =~= times_of(*env, all@));
                }
            }
            proof {
                reveal(Seq::filter);
                assert(ids.take(i + 1).drop_last() =~= ids.take(i as int));
                assert(ids.take(i + 1).last() == id);
            }
            i = i + 1;
        }
        assert(ids.take(i as int) =~= ids);
        assert(all@ == ended_ids(*old(env)));
        let order = sorted_order(&times);
        assert(is_sorted_order(times_of(*old(env), all@), order@));
        let n: usize = all.len();
        let limit: usize = if n as u64 <= max_per_call as u64 {
            n
        } else {
            max_per_call as usize
        };
        let mut evicted: Vec<u64> = Vec::new();
        let mut k: usize = 0;
        proof {
            assert(env.transactions.records@ =~= old(env).transactions.records@.remove_keys(
                Set::new(|id: u64| evicted@.contains(id)),
            ));
        }
        while k < limit
            invariant
                0 <= k <= limit <= n,
                n == all@.len(),
                order@.len() == n,
                forall|j: int| 0 <= j < n ==> (#[trigger] order@[j]) < n,
                *env == (Ledger {
                    transactions: TransactionStore {
                        records: env.transactions.records,
                        ..old(env).transactions
                    },
                    ..*old(env)
                }),
                evicted@.len() == k,
                picks_ids(all@, order@, evicted@),
                env.transactions.records@ == old(env).transactions.records@.remove_keys(
                    Set::new(|id: u64| evicted@.contains(id)),
                ),
            decreases limit - k,
        {
            let id: u64 = all[order[k]];
            let ghost before = evicted@;
            env.transactions.records.remove(&id);
            evicted.push(id);
            proof {
                assert forall|x: u64| evicted@.contains(x) == (before.contains(x) || x == id) by {
                    if before.contains(x) {
                        let w = choose|w: int| 0 <= w < before.len() && before[w] == x;
                        assert(evicted@[w] == x);
                    }
                    if evicted@.contains(x) {
                        let w = choose|w: int| 0 <= w < evicted@.len() && evicted@[w] == x;
                        if w < before.len() {
                            assert(before[w] == x);
                        }
                    }
                    assert(evicted@[before.len() as int] == id);
                }
                assert(env.transactions.records@ =~= old(env).transactions.records@.remove_keys(
                    Set::new(|id: u64| evicted@.contains(id)),
                ));
            }
            k = k + 1;
        }
        let mut live: Vec<u64> = Vec::new();
        let mut m: usize = 0;
        let ghost keep = |id: u64| !evicted@.contains(id);
        proof {
            reveal(Seq::filter);
            assert(live@ =~= ids.take(0).filter(keep));
        }
        while m < env.transactions.ids.len()
            invariant
                0 <= m <= ids.len(),
                ids == env.transactions.ids@,
                keep == (|id: u64| !evicted@.contains(id)),
                live@ == ids.take(m as int).filter(keep),
            decreases ids.len() - m,
        {
            let id: u64 = env.transactions.ids[m];
            if !lists_id(&evicted, id) {
                live.push(id);
            }
            proof {
                reveal(Seq::filter);
                assert(ids.take(m + 1).drop_last() =~= ids.take(m as int));
                assert(ids.take(m + 1).last() == id);
            }
            m = m + 1;
        }
        assert(ids.take(m as int) =~= ids);
        env.transactions.ids = live;
        if evicted.len() > 0 {
            env.publish(Event::RecordsEvicted(evicted.len() as u32));
        }
        proof {
            assert(evicted@.len() == limit);
            assert(lists_each(order@, all@.len() as int));
            assert(picks_ids(ended_ids(*old(env)), order@, evicted@));
        }
        evicted
    }

    /// Starts a pending transaction.
    pub fn start_transaction_record(env: &mut Ledger, transaction_id: u64) -> (r: Result<
        TransactionStateRecord,
        ContractError,
    >)
        ensures
            follows(
                r,
                advance_refusal(*old(env), transaction_id, TransactionState::InProgress),
            ),
            r is Err ==> *final(env) == *old(env),
            r is Ok ==> {
                &&& advanced(
                    *old(env),
                    *final(env),
                    transaction_id,
                    TransactionState::InProgress,
                    None,
                )
                &&& same_record(r->Ok_0, final(env).transactions.records@[transaction_id])
            },
    {
        Self::advance_transaction_state_internal(
            env,
            transaction_id,
            TransactionState::InProgress,
            None,
        )
    }

    /// Completes a transaction in progress.
    pub fn complete_transaction_record(env: &mut Ledger, transaction_id: u64) -> (r: Result<
        TransactionStateRecord,
        ContractError,
    >)
        ensures
            follows(
                r,
                advance_refusal(*old(env), transaction_id, TransactionState::Completed),
            ),
            r is Err ==> *final(env) == *old(env),
            r is Ok ==> {
                &&& advanced(
                    *old(env),
                    *final(env),
                    transaction_id,
                    TransactionState::Completed,
                    None,
                )
                &&& same_record(r->Ok_0, final(env).transactions.records@[transaction_id])
            },
    {
        Self::advance_transaction_state_internal(
            env,
            transaction_id,
            TransactionState::Completed,
            None,
        )
    }

    /// Fails a transaction for a reason.
    pub fn fail_transaction_record(
        env: &mut Ledger,
        transaction_id: u64,
        error_message: String,
    ) -> (r: Result<TransactionStateRecord, ContractError>)
        ensures
            follows(r, advance_refusal(*old(env), transaction_id, TransactionState::Failed)),
            r is Err ==> *final(env) == *old(env),
            r is Ok ==> {
                &&& advanced(
                    *old(env),
                    *final(env),
                    transaction_id,
                    TransactionState::Failed,
                    Some(error_message),
                )
                &&& same_record(r->Ok_0, final(env).transactions.records@[transaction_id])
            },
    {
        Self::advance_transaction_state_internal(
            env,
            transaction_id,
            TransactionState::Failed,
            Some(error_message),
        )
    }

    /// The states that a transaction went through, with their times.
    pub fn get_txn_state_history(env: &Ledger, transaction_id: u64) -> (r: Result<
        Vec<(TransactionState, u64)>,
        ContractError,
    >)
        ensures
            follows(
                r,
                refuse_when(
                    !env.transactions.records@.contains_key(transaction_id),
                    ErrorCode::AttestationNotFound,
                ),
            ),
            r is Ok ==> r->Ok_0@ == env.transactions.records@[transaction_id].state_history@,
    {
        match env.transactions.records.get(&transaction_id) {
            Some(record) => Ok(copy_history(&record.state_history)),
            None => Err(ContractError::Code(ErrorCode::AttestationNotFound)),
        }
    }

    /// The records with ids from `from_id` to `to_id`, by ascending id, `limit`
    /// and a hundred of them at most.
    pub fn get_transactions_in_range(env: &Ledger, from_id: u64, to_id: u64, limit: u32) -> (r: Vec<
        TransactionStateRecord,
    >)
        ensures
            exists|ids: Seq<u64>|
                {
                    &&& #[trigger] is_id_page(*env, from_id, to_id, limit, ids)
                    &&& r@.len() == ids.len()
                    &&& forall|i: int|
                        0 <= i < r@.len() ==> same_record(
                            #[trigger] r@[i],
                            env.transactions.records@[ids[i]],
                        )
                },
    {
        let effective_limit: u32 = if limit < MAX_RANGE {
            limit
        } else {
            MAX_RANGE
        };
        let mut results: Vec<TransactionStateRecord> = Vec::new();
        let ghost mut ids: Seq<u64> = Seq::empty();
        if from_id > to_id {
            assert(is_id_page(*env, from_id, to_id, limit, ids));
            return results;
        }
        let mut id: u64 = from_id;
        let mut count: u32 = 0;
        let mut more = true;
        while more && count < effective_limit
            invariant
                from_id <= id <= to_id,
                effective_limit == range_limit(limit),
                count <= effective_limit,
                count == results@.len(),
                ids.len() == results@.len(),
                forall|i: int|
                    0 <= i < results@.len() ==> same_record(
                        #[trigger] results@[i],
                        env.transactions.records@[ids[i]],
                    ),
                lists_stored(*env, from_id, if more {
                    id as int
                } else {
                    to_id + 1
                }, ids),
                !more ==> id == to_id,
            decreases to_id - id + (if more {
                1int
            } else {
                0int
            }),
        {
            let ghost before = ids;
            if let Some(record) = env.transactions.records.get(&id) {
                results.push(record.copy());
                count = count + 1;
                proof {
                    ids = ids.push(id);
                }
            }
            assert(lists_stored(*env, from_id, id + 1, ids)) by {
                assert forall|x: u64| from_id <= x < id + 1 implies #[trigger] ids.contains(x)
                    == env.transactions.records@.contains_key(x) by {
                    if x < id {
                        assert(before.contains(x) == env.transactions.records@.contains_key(x));
                        if before.contains(x) {
                            let w = choose|w: int| 0 <= w < before.len() && before[w] == x;
                            assert(ids[w] == x);
                        }
                        if ids.contains(x) {
                            let w = choose|w: int| 0 <= w < ids.len() && ids[w] == x;
                            assert(w < before.len());
                            assert(before[w] == x);
                        }
                    } else {
                        if env.transactions.records@.contains_key(id) {
                            assert(ids[before.len() as int] == id);
                        } else if ids.contains(id) {
                            let w = choose|w: int| 0 <= w < ids.len() && ids[w] == id;
                            assert(before[w] < id);
                        }
                    }
                }
            }
            if id == to_id {
                more = false;
            } else {
                id = id + 1;
            }
        }
        assert(is_id_page(*env, from_id, to_id, limit, ids)) by {
            let end = if more {
                id as int
            } else {
                to_id + 1
            };
            assert(lists_stored(*env, from_id, end, ids));
        }
        results
    }

    /// How many listed transactions are stored in each state.
    pub fn summarize_transactions_by_status(env: &Ledger) -> (r: TransactionStatusSummary)
        ensures
            r == summary_of(*env),
    {
        let mut pending_count: u64 = 0;
        let mut in_progress_count: u64 = 0;
        let mut completed_count: u64 = 0;
        let mut failed_count: u64 = 0;
        let mut i: usize = 0;
        let ghost ids = env.transactions.ids@;
        assert(ids.take(0).len() == 0);
        while i < env.transactions.ids.len()
            invariant
                0 <= i <= ids.len(),
                ids == env.transactions.ids@,
                pending_count == in_state_count(
                    *env,
                    ids.take(i as int),
                    TransactionState::Pending,
                ),
                in_progress_count == in_state_count(
                    *env,
                    ids.take(i as int),
                    TransactionState::InProgress,
                ),
                completed_count == in_state_count(
                    *env,
                    ids.take(i as int),
                    TransactionState::Completed,
                ),
                failed_count == in_state_count(*env, ids.take(i as int), TransactionState::Failed),
                pending_count + in_progress_count + completed_count + failed_count <= i,
            decreases ids.len() - i,
        {
            let id: u64 = env.transactions.ids[i];
            proof {
                assert(ids.take(i + 1).drop_last() =~= ids.take(i as int));
                assert(ids.take(i + 1).last() == id);
            }
            if let Some(record) = env.transactions.records.get(&id) {
                match record.state {
                    TransactionState::Pending => {
                        pending_count = pending_count + 1;
                    },
                    TransactionState::InProgress => {
                        in_progress_count = in_progress_count + 1;
                    },
                    TransactionState::Completed => {
                        completed_count = completed_count + 1;
                    },
                    TransactionState::Failed => {
                        failed_count = failed_count + 1;
                    },
                }
            }
            i = i + 1;
        }
        assert(ids.take(i as int) =~= ids);
        TransactionStatusSummary {
            pending_count,
            in_progress_count,
            completed_count,
            failed_count,
            total_count: pending_count + in_progress_count + completed_count + failed_count,
        }
    }

    fn advance_transaction_state_internal(
        env: &mut Ledger,
        transaction_id: u64,
        new_state: TransactionState,
        error_message: Option<String>,
    ) -> (r: Result<TransactionStateRecord, ContractError>)
        ensures
            follows(r, advance_refusal(*old(env), transaction_id, new_state)),
            r is Err ==> *final(env) == *old(env),
            r is Ok ==> {
                &&& advanced(*old(env), *final(env), transaction_id, new_state, error_message)
                &&& same_record(r->Ok_0, final(env).transactions.records@[transaction_id])
            },
    {
        let from_state = match env.transactions.records.get(&transaction_id) {
            Some(record) => record.state,
            None => {
                return Err(ContractError::Code(ErrorCode::TransactionNotFound));
            },
        };
        if !from_state.is_valid_transition(new_state) {
            return Err(ContractError::Code(ErrorCode::IllegalTransition));
        }
        let now: u64 = env.clock.timestamp;
        let current_ledger: u32 = env.clock.sequence;
        match env.transactions.records.get_mut(&transaction_id) {
            None => Err(ContractError::Code(ErrorCode::TransactionNotFound)),
            Some(record) => {
                record.state = new_state;
                record.last_updated = now;
                record.last_updated_ledger = current_ledger;
                record.state_history.push((new_state, now));
                if new_state == TransactionState::Failed {
                    let failure_reason = match &error_message {
                        Some(m) => m.clone(),
                        None => "unspecified failure".to_owned(),
                    };
                    record.recovery_metadata = Some(
                        RecoveryMetadata {
                            failure_reason,
                            last_updated_ledger: current_ledger,
                            failed_from_state: from_state,
                            retry_count: 0,
                        },
                    );
                }
                record.error_message = error_message;
                Ok(record.copy())
            },
        }
    }
}

proof fn all_are_kept(s: Seq<u64>, keep: spec_fn(u64) -> bool)
    requires
        forall|x: u64| #[trigger] keep(x),
    ensures
        s.filter(keep) == s,
    decreases s.len(),
{
    reveal(Seq::filter);
    if s.len() > 0 {
        all_are_kept(s.drop_last(), keep);
        assert(s.drop_last().push(s.last()) =~= s);
    }
}

/// Only transactions that have ended are evicted.
pub proof fn only_ended_transactions_are_evicted(env: Ledger, max: u32, evicted: Seq<u64>, i: int)
    requires
        are_oldest_ended(env, max, evicted),
        0 <= i < evicted.len(),
    ensures
        is_ended(env, evicted[i]),
        evicted.len() <= max,
{
    let all = ended_ids(env);
    let ended = ended_in(env);
    broadcast use vstd::seq_lib::group_filter_ensures;

    let order = choose|order: Seq<usize>|
        {
            &&& is_sorted_order(times_of(env, all), order)
            &&& lists_each(order, all.len() as int)
            &&& evicted.len() == (if all.len() <= max {
                all.len() as int
            } else {
                max as int
            })
            &&& #[trigger] picks_ids(all, order, evicted)
        };
    assert(evicted[i] == all[order[i] as int]);
    assert(ended(all[order[i] as int]));
}

/// Evicted transactions come oldest first, and no listed transaction that has
/// ended and was kept is older than one that was evicted.
pub proof fn evictions_go_from_the_oldest(
    env: Ledger,
    max: u32,
    evicted: Seq<u64>,
    i: int,
    j: int,
    kept: u64,
)
    requires
        are_oldest_ended(env, max, evicted),
        0 <= i <= j < evicted.len(),
    ensures
        env.transactions.records@[evicted[i]].timestamp
            <= env.transactions.records@[evicted[j]].timestamp,
        env.transactions.ids@.contains(kept) && is_ended(env, kept) && !evicted.contains(kept)
            ==> env.transactions.records@[evicted[j]].timestamp
            <= env.transactions.records@[kept].timestamp,
{
    broadcast use vstd::seq_lib::group_filter_ensures;

    let all = ended_ids(env);
    let ended = ended_in(env);
    let order = choose|order: Seq<usize>|
        {
            &&& is_sorted_order(times_of(env, all), order)
            &&& lists_each(order, all.len() as int)
            &&& evicted.len() == (if all.len() <= max {
                all.len() as int
            } else {
                max as int
            })
            &&& #[trigger] picks_ids(all, order, evicted)
        };
    assert(evicted[i] == all[order[i] as int]);
    assert(evicted[j] == all[order[j] as int]);
    let times = times_of(env, all);
    assert(times[order[i] as int].key == env.transactions.records@[evicted[i]].timestamp);
    assert(times[order[j] as int].key == env.transactions.records@[evicted[j]].timestamp);
    if env.transactions.ids@.contains(kept) && is_ended(env, kept) && !evicted.contains(kept) {
        let at = choose|at: int| 0 <= at < env.transactions.ids@.len() && env.transactions.ids@[at] == kept;
        assert(ended(env.transactions.ids@[at]));
        assert(all.contains(kept));
        let k = choose|k: int| 0 <= k < all.len() && all[k] == kept;
        assert(env.transactions.ids.len() == env.transactions.ids@.len());
        assert(order.contains(k as usize));
        let p = choose|p: int| 0 <= p < order.len() && order[p] == k as usize;
        if p < evicted.len() {
            assert(evicted[p] == all[order[p] as int]);
            assert(evicted.contains(kept));
        }
        assert(times[order[p] as int].key == env.transactions.records@[kept].timestamp);
    }
}

/// Whether the list names each stored record once and nothing else.
pub open spec fn in_step(t: TransactionStore) -> bool {
    &&& t.ids@.no_duplicates()
    &&& forall|id: u64|
        #![trigger t.ids@.contains(id)]
        #![trigger t.records@.contains_key(id)]
        t.ids@.contains(id) == t.records@.contains_key(id)
}

/// Before anything is stored, the list is in step with the records.
pub proof fn an_empty_list_is_in_step(t: TransactionStore)
    requires
        t.blank(),
    ensures
        in_step(t),
{
}

/// Creating a record, under a new id or one in use, keeps the list in step with
/// the records, whatever was evicted.
pub proof fn the_list_stays_in_step(
    before: Ledger,
    after: Ledger,
    evicted: Seq<u64>,
    transaction_id: u64,
    initiator: Address,
    routing_reason: Option<String>,
)
    requires
        in_step(before.transactions),
        record_created(before, after, evicted, transaction_id, initiator, routing_reason),
    ensures
        in_step(after.transactions),
{
    let t = before.transactions;
    let keep = |id: u64| !evicted.contains(id);
    filtered_once(t.ids@, keep);
    let kept = t.ids@.filter(keep);
    if !kept.contains(transaction_id) {
        pushed_once(kept, transaction_id);
    }
    let u = after.transactions;
    assert forall|id: u64| #[trigger] u.ids@.contains(id) == u.records@.contains_key(id) by {
        assert(u.ids@.contains(id) == (kept.contains(id) || id == transaction_id));
        assert(kept.contains(id) == (t.ids@.contains(id) && keep(id)));
    }
}

/// A step of a transaction keeps the list in step with the records.
pub proof fn steps_keep_the_list(
    before: Ledger,
    after: Ledger,
    transaction_id: u64,
    next: TransactionState,
    error_message: Option<String>,
)
    requires
        in_step(before.transactions),
        advance_refusal(before, transaction_id, next) is None,
        advanced(before, after, transaction_id, next, error_message),
    ensures
        in_step(after.transactions),
{
}

/// The report counts exactly the stored records.
pub proof fn the_report_counts_the_records(env: Ledger)
    requires
        in_step(env.transactions),
    ensures
        budget_report(env, env.transactions.ids@.len() as int).entry_count
            == env.transactions.records@.dom().len(),
{
    let ids = env.transactions.ids;
    assert(ids.len() == ids@.len());
    ids@.unique_seq_to_set();
    assert(ids@.to_set() =~= env.transactions.records@.dom());
}

/// A transaction that has ended never takes another step.
pub proof fn ended_transactions_do_not_advance(env: Ledger, id: u64, next: TransactionState)
    requires
        is_ended(env, id),
    ensures
        advance_refusal(env, id, next) == Some(ContractError::Code(ErrorCode::IllegalTransition)),
{
}

/// A new record, and the reason stored with it, stay through every step.
pub proof fn reasons_stay(
    before: TransactionStateRecord,
    after: TransactionStateRecord,
    env: Ledger,
    next: TransactionState,
    error_message: Option<String>,
)
    requires
        is_advanced(before, after, env, next, error_message),
    ensures
        after.routing_reason == before.routing_reason,
        after.initiator == before.initiator,
        after.timestamp == before.timestamp,
        after.state_history@.drop_last() == before.state_history@,
{
    assert(after.state_history@.drop_last() =~= before.state_history@);
}

} // verus!
