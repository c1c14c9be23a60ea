//! Laws of transaction records.
use crate::address::Address;
use crate::contract::events::Event;
use crate::contract::ledger::{ContractError, Ledger};
use crate::contract::transactions::{
    advance_refusal, advanced, are_oldest_ended, budget_report, ended_ids, events_after_eviction,
    events_after_report, evictions_in, evicts_first, in_state_count, is_advanced, is_id_page,
    is_new_record, lifetime_of, picks_ids, record_created, times_of, EntryKind,
};
use crate::errors::ErrorCode;
use crate::sorting::{is_sorted_order, lists_each};
use crate::transaction_state_tracker::{
    StorageBudgetReport, TransactionState, TransactionStateRecord,
};
use vstd::prelude::*;

verus! {

/// A transaction starts only from pending, completes only once started, and fails
/// from either; it never goes back.
pub proof fn transactions_go_forward(from: TransactionState, to: TransactionState)
    ensures
        from.may_become(TransactionState::InProgress) <==> from == TransactionState::Pending,
        from.may_become(TransactionState::Completed) <==> from == TransactionState::InProgress,
        from.may_become(TransactionState::Failed) <==> from == TransactionState::Pending || from
            == TransactionState::InProgress,
        !from.may_become(TransactionState::Pending),
        from.terminal() <==> from == TransactionState::Completed || from == TransactionState::Failed,
{
}

/// A step is taken exactly where the transaction is on record in a state that
/// leads there; an unknown transaction is told apart from a step that is not
/// allowed.
pub proof fn steps_are_checked(env: Ledger, id: u64)
    ensures
        ({
            let stored = env.transactions.records@.contains_key(id);
            let state = env.transactions.records@[id].state;
            let start = advance_refusal(env, id, TransactionState::InProgress);
            let complete = advance_refusal(env, id, TransactionState::Completed);
            let fail = advance_refusal(env, id, TransactionState::Failed);
            &&& start is None <==> stored && state == TransactionState::Pending
            &&& complete is None <==> stored && state == TransactionState::InProgress
            &&& fail is None <==> stored && (state == TransactionState::Pending || state
                == TransactionState::InProgress)
            &&& !stored ==> start == Some(ContractError::Code(ErrorCode::TransactionNotFound))
                && complete == Some(ContractError::Code(ErrorCode::TransactionNotFound)) && fail
                == Some(ContractError::Code(ErrorCode::TransactionNotFound))
            &&& stored && start is Some ==> start == Some(
                ContractError::Code(ErrorCode::IllegalTransition),
            )
            &&& stored && complete is Some ==> complete == Some(
                ContractError::Code(ErrorCode::IllegalTransition),
            )
        }),
{
}

/// A step leaves the transaction in its new state, dated, with the state at the
/// end of its history; a failure leaves the reason and the state that it came from.
/// No other transaction is touched.
pub proof fn steps_are_on_record(
    before: Ledger,
    after: Ledger,
    id: u64,
    next: TransactionState,
    error_message: Option<String>,
    other: u64,
)
    requires
        advanced(before, after, id, next, error_message),
    ensures
        ({
            let was = before.transactions.records@[id];
            let now = after.transactions.records@[id];
            &&& now.state == next
            &&& now.transaction_id == was.transaction_id
            &&& now.initiator == was.initiator
            &&& now.timestamp == was.timestamp
            &&& now.routing_reason == was.routing_reason
            &&& now.last_updated == before.clock.timestamp
            &&& now.last_updated_ledger == before.clock.sequence
            &&& now.error_message == error_message
            &&& now.state_history@.len() == was.state_history@.len() + 1
            &&& now.state_history@.last() == (next, before.clock.timestamp)
            &&& forall|i: int|
                0 <= i < was.state_history@.len() ==> #[trigger] now.state_history@[i]
                    == was.state_history@[i]
            &&& next == TransactionState::Failed ==> {
                &&& now.recovery_metadata is Some
                &&& now.recovery_metadata->0.failed_from_state == was.state
                &&& now.recovery_metadata->0.last_updated_ledger == before.clock.sequence
                &&& now.recovery_metadata->0.retry_count == 0
                &&& error_message is Some ==> now.recovery_metadata->0.failure_reason@
                    == error_message->0@
            }
            &&& next != TransactionState::Failed ==> now.recovery_metadata == was.recovery_metadata
        }),
        other != id ==> after.transactions.records@.contains_key(other)
            == before.transactions.records@.contains_key(other) && after.transactions.records@[other]
            == before.transactions.records@[other],
{
}

/// A new transaction is pending, dated, and its history holds just that.
pub proof fn records_start_pending(
    r: TransactionStateRecord,
    env: Ledger,
    id: u64,
    initiator: Address,
    reason: Option<String>,
)
    requires
        is_new_record(r, env, id, initiator, reason),
    ensures
        r.transaction_id == id,
        r.initiator == initiator,
        r.state == TransactionState::Pending,
        r.timestamp == env.clock.timestamp,
        r.last_updated == env.clock.timestamp,
        r.last_updated_ledger == env.clock.sequence,
        r.error_message is None,
        r.recovery_metadata is None,
        r.routing_reason == reason,
        r.state_history@.len() == 1,
        r.state_history@[0] == (TransactionState::Pending, env.clock.timestamp),
{
}

/// A created record can be started at once, and neither be completed nor is it
/// found under another number.
pub proof fn created_records_can_be_started(
    before: Ledger,
    after: Ledger,
    evicted: Seq<u64>,
    id: u64,
    initiator: Address,
    reason: Option<String>,
    other: u64,
)
    requires
        record_created(before, after, evicted, id, initiator, reason),
    ensures
        advance_refusal(after, id, TransactionState::InProgress) is None,
        advance_refusal(after, id, TransactionState::Completed) is Some,
        after.transactions.ids@.contains(id),
        other != id && !evicted.contains(other) ==> after.transactions.records@.contains_key(other)
            == before.transactions.records@.contains_key(other),
        other != id && !evicted.contains(other) && before.transactions.records@.contains_key(other)
            ==> after.transactions.records@[other] == before.transactions.records@[other],
        other != id && evicted.contains(other) ==> !after.transactions.records@.contains_key(other),
{
    let kept = before.transactions.ids@.filter(|x: u64| !evicted.contains(x));
    if !kept.contains(id) {
        assert(kept.push(id)[kept.len() as int] == id);
    }
}

/// Room is made before a record is created exactly where eviction is on and the
/// records take as much as the warning or the critical size.
pub proof fn eviction_waits_for_pressure(env: Ledger)
    requires
        env.transactions.ids@.len() * 256 <= u64::MAX,
    ensures
        ({
            let bytes = env.transactions.ids@.len() * 256;
            let warning = match env.config.budget_warning {
                Some(n) => n as int,
                None => 500_000,
            };
            let critical = match env.config.budget_critical {
                Some(n) => n as int,
                None => 1_000_000,
            };
            let report = budget_report(env, env.transactions.ids@.len() as int);
            &&& evicts_first(env) <==> env.config.eviction_enabled == Some(true) && (bytes >= warning
                || bytes >= critical)
            &&& report.approx_bytes == bytes
            &&& report.entry_count == env.transactions.ids@.len()
            &&& report.warning <==> bytes >= warning
            &&& report.critical <==> bytes >= critical
            &&& report.warning_bytes == warning
            &&& report.critical_bytes == critical
        }),
        env.config.eviction_max is None ==> evictions_in(env) == 10,
        env.config.eviction_max is Some ==> evictions_in(env) == env.config.eviction_max->0,
{
}

/// As many ended transactions are evicted as there are, up to the number allowed,
/// each once; never one that goes on.
pub proof fn evictions_are_of_the_ended(env: Ledger, max: u32, evicted: Seq<u64>, i: int)
    requires
        are_oldest_ended(env, max, evicted),
    ensures
        evicted.len() <= max,
        evicted.len() < max ==> evicted.len() == ended_ids(env).len(),
        0 <= i < evicted.len() ==> {
            let state = env.transactions.records@[evicted[i]].state;
            &&& env.transactions.records@.contains_key(evicted[i])
            &&& state == TransactionState::Completed || state == TransactionState::Failed
        },
{
    let all = ended_ids(env);
    let order = choose|order: Seq<usize>|
        {
            &&& is_sorted_order(times_of(env, all), order)
            &&& lists_each(order, all.len() as int)
            &&& evicted.len() == (if all.len() <= max {
                all.len() as int
            } else {
                max as int
            })
            &&& #[trigger] picks_ids(all, order, evicted)
        };
    if 0 <= i < evicted.len() {
        crate::contract::transactions::only_ended_transactions_are_evicted(env, max, evicted, i);
    }
}

/// That records were evicted is announced with how many; pressure is announced as
/// critical where it is, else as a warning where it is that.
pub proof fn pressure_is_announced(
    events: Seq<Event>,
    evicted: Seq<u64>,
    report: StorageBudgetReport,
)
    requires
        evicted.len() <= u32::MAX,
    ensures
        evicted.len() == 0 ==> events_after_eviction(events, evicted) == events,
        evicted.len() > 0 ==> events_after_eviction(events, evicted).last() == Event::RecordsEvicted(
            evicted.len() as u32,
        ) && events_after_eviction(events, evicted).len() == events.len() + 1,
        report.critical ==> events_after_report(events, report) == events.push(
            Event::BudgetCritical(report.entry_count, report.approx_bytes),
        ),
        !report.critical && report.warning ==> events_after_report(events, report) == events.push(
            Event::BudgetWarning(report.entry_count, report.approx_bytes),
        ),
        !report.critical && !report.warning ==> events_after_report(events, report) == events,
{
}

/// How long entries are asked to be kept: a month for settings and for ended
/// transactions, three months for what goes on, for spans and for everything else,
/// and a week for the marks of used payloads.
pub proof fn lifetimes_are_set(state: TransactionState)
    ensures
        lifetime_of(EntryKind::Instance) == 518_400,
        lifetime_of(EntryKind::Persistent) == 1_555_200,
        lifetime_of(EntryKind::Span) == 1_555_200,
        lifetime_of(EntryKind::Replay) == 120_960,
        state == TransactionState::Completed || state == TransactionState::Failed ==> lifetime_of(
            EntryKind::Transaction(state),
        ) == 518_400,
        state == TransactionState::Pending || state == TransactionState::InProgress ==> lifetime_of(
            EntryKind::Transaction(state),
        ) == 1_555_200,
{
}

/// A range query names stored transactions of the range, ascending, no more than
/// asked for and no more than a hundred; it leaves one out only behind all that it
/// names, and only where it is full.
pub proof fn ranges_are_complete(
    env: Ledger,
    from_id: u64,
    to_id: u64,
    limit: u32,
    ids: Seq<u64>,
    i: int,
    j: int,
    x: u64,
)
    requires
        is_id_page(env, from_id, to_id, limit, ids),
    ensures
        ids.len() <= limit,
        ids.len() <= 100,
        0 <= i < ids.len() ==> from_id <= ids[i] <= to_id && env.transactions.records@.contains_key(
            ids[i],
        ),
        0 <= i < j < ids.len() ==> ids[i] < ids[j],
        from_id <= x <= to_id && env.transactions.records@.contains_key(x) && !ids.contains(x) ==> {
            &&& ids.len() == limit || ids.len() == 100
            &&& 0 <= i < ids.len() ==> ids[i] < x
        },
{
    if from_id <= to_id {
        let end = choose|end: int|
            {
                &&& from_id <= end <= to_id + 1
                &&& #[trigger] crate::contract::transactions::lists_stored(env, from_id, end, ids)
                &&& ids.len() <= crate::contract::transactions::range_limit(limit)
                &&& end <= to_id ==> ids.len() == crate::contract::transactions::range_limit(limit)
            };
        if 0 <= i < ids.len() {
            assert(ids.contains(ids[i]));
        }
    }
}

/// The count of a state is how many of the listed transactions are on record in
/// it; over all states every one on record is counted once.
pub proof fn states_are_counted(env: Ledger, ids: Seq<u64>, state: TransactionState)
    ensures
        in_state_count(env, ids, state) == ids.filter(
            |id: u64|
                env.transactions.records@.contains_key(id) && env.transactions.records@[id].state
                    == state,
        ).len(),
    decreases ids.len(),
{
    reveal(Seq::filter);
    if ids.len() > 0 {
        states_are_counted(env, ids.drop_last(), state);
    }
}

/// What a step keeps and what it changes of a record.
pub proof fn steps_keep_the_rest(
    before: TransactionStateRecord,
    after: TransactionStateRecord,
    env: Ledger,
    next: TransactionState,
    error_message: Option<String>,
)
    requires
        is_advanced(before, after, env, next, error_message),
    ensures
        after.transaction_id == before.transaction_id,
        after.state == next,
        after.error_message == error_message,
        next == TransactionState::Failed && error_message is None
            ==> after.recovery_metadata->0.failure_reason@ == "unspecified failure"@,
{
}

} // verus!
