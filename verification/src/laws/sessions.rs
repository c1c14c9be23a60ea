//! Laws of sessions and the audit log.
use crate::address::Address;
use crate::contract::events::Event;
use crate::contract::ledger::{ContractError, Ledger};
use crate::contract::sessions::{
    close_refusal, hex_list, log_range, old_count, open_refusal, opened_sessions,
    operation_announced, operation_logged, operations_of, page_end, pruned_logs, prunes_itself,
    quoted_hex, retention_start, scan_limit, session_ended, session_log_range, session_over,
    settled_events, settled_sessions,
};
use crate::contract::types::{AuditLog, Session};
use crate::errors::ErrorCode;
use crate::session_state_machine::{legal_step, SessionState};
use vstd::prelude::*;

verus! {

/// A session lives for as many seconds as it names, or for an hour where it names
/// none; it is over only later than that.
pub proof fn sessions_have_a_lifetime(s: Session, now: u64)
    ensures
        s.session_ttl_seconds != 0 && s.created_at + s.session_ttl_seconds <= u64::MAX
            ==> (session_over(s, now) <==> now > s.created_at + s.session_ttl_seconds),
        s.session_ttl_seconds == 0 && s.created_at + 3600 <= u64::MAX ==> (session_over(s, now)
            <==> now > s.created_at + 3600),
        now <= s.created_at ==> !session_over(s, now),
{
}

/// A session is open for one more operation exactly where it is on record, its
/// lifetime is not over, it is created or active, and has had fewer than a hundred
/// operations. What is said otherwise is why it is not.
pub proof fn sessions_are_open_while_they_live(env: Ledger, session_id: u64)
    ensures
        ({
            let r = open_refusal(env, session_id);
            let stored = env.sessions.records@.contains_key(session_id);
            let s = env.sessions.records@[session_id];
            let over = session_over(s, env.clock.timestamp);
            let done = if env.sessions.operation_counts@.contains_key(session_id) {
                env.sessions.operation_counts@[session_id]
            } else {
                0
            };
            &&& r is None <==> stored && !over && (s.state == 0 || s.state == 1) && done < 100
            &&& !stored ==> r == Some(ContractError::Code(ErrorCode::SessionNotFound))
            &&& stored && over ==> r == Some(ContractError::Code(ErrorCode::SessionExpired))
            &&& stored && !over && s.state == 3 ==> r == Some(
                ContractError::Code(ErrorCode::SessionClosed),
            )
            &&& stored && !over && s.state >= 4 ==> r == Some(
                ContractError::Code(ErrorCode::SessionExpired),
            )
            &&& stored && !over && s.state == 2 ==> r == Some(
                ContractError::Code(ErrorCode::SessionOperationLimitExceeded),
            )
            &&& stored && !over && s.state < 2 && done >= 100 ==> r == Some(
                ContractError::Code(ErrorCode::SessionOperationLimitExceeded),
            )
            &&& operations_of(env, session_id) == done
        }),
{
}

/// A session is closed exactly by its initiator, who has signed the call, while
/// its lifetime is not over and it is created or active.
pub proof fn initiators_close_their_sessions(env: Ledger, session_id: u64, initiator: Address)
    ensures
        ({
            let r = close_refusal(env, session_id, initiator);
            let stored = env.sessions.records@.contains_key(session_id);
            let s = env.sessions.records@[session_id];
            let over = session_over(s, env.clock.timestamp);
            let signed = env.auth.all || env.auth.signers@.contains(initiator);
            &&& r is None <==> signed && stored && s.initiator == initiator && !over && (s.state == 0
                || s.state == 1)
            &&& !signed ==> r == Some(ContractError::AuthRequired(initiator))
            &&& signed && !stored ==> r == Some(ContractError::Code(ErrorCode::SessionNotFound))
            &&& signed && stored && s.initiator != initiator ==> r == Some(
                ContractError::Code(ErrorCode::UnauthorizedAttestor),
            )
            &&& signed && stored && s.initiator == initiator && over ==> r == Some(
                ContractError::Code(ErrorCode::SessionExpired),
            )
            &&& signed && stored && s.initiator == initiator && !over && s.state == 3 ==> r == Some(
                ContractError::Code(ErrorCode::SessionClosed),
            )
            &&& signed && stored && s.initiator == initiator && !over && (s.state == 2 || s.state
                >= 4) ==> r == Some(ContractError::Code(ErrorCode::IllegalTransition))
        }),
{
}

/// A session that was closed refuses every operation and cannot be closed again.
pub proof fn closed_sessions_are_at_rest(
    env: Ledger,
    session_id: u64,
    initiator: Address,
)
    requires
        env.sessions.records@.contains_key(session_id),
        env.sessions.records@[session_id].state == 3,
    ensures
        open_refusal(env, session_id) is Some,
        close_refusal(env, session_id, initiator) is Some,
{
}

/// The first operation makes a created session active; everything else of it, and
/// every other session, stays.
pub proof fn first_operations_activate(env: Ledger, session_id: u64, other: u64)
    requires
        env.sessions.records@.contains_key(session_id),
    ensures
        ({
            let s = env.sessions.records@[session_id];
            let o = opened_sessions(env, session_id)[session_id];
            &&& s.state == 0 ==> o.state == 1
            &&& s.state != 0 ==> o.state == s.state
            &&& o.session_id == s.session_id
            &&& o.initiator == s.initiator
            &&& o.created_at == s.created_at
            &&& o.nonce == s.nonce
            &&& o.session_ttl_seconds == s.session_ttl_seconds
            &&& o.closed == s.closed
            &&& other != session_id ==> opened_sessions(env, session_id)[other]
                == env.sessions.records@[other]
        }),
{
}

/// Settling marks a created or active session as expired where its lifetime is
/// over, and an active one that has had a hundred operations as exhausted; nothing
/// else is marked. Only the expiry is announced.
pub proof fn settling_marks_the_ended(env: Ledger, session_id: u64)
    requires
        env.sessions.records@.contains_key(session_id),
    ensures
        ({
            let s = env.sessions.records@[session_id];
            let t = settled_sessions(env, session_id)[session_id];
            let over = session_over(s, env.clock.timestamp);
            &&& (s.state == 0 || s.state == 1) && over ==> t.state == 4 && settled_events(
                env,
                session_id,
            ) == env.events@.push(Event::SessionExpired(session_ended(env, session_id)))
            &&& s.state == 1 && !over && operations_of(env, session_id) >= 100 ==> t.state == 2
                && settled_events(env, session_id) == env.events@
            &&& s.state >= 2 || (!over && operations_of(env, session_id) < 100) ==> t == s
                && settled_events(env, session_id) == env.events@
            &&& session_ended(env, session_id).session_id == session_id
            &&& session_ended(env, session_id).initiator == s.initiator
            &&& session_ended(env, session_id).timestamp == env.clock.timestamp
        }),
{
}

/// States are stored as numbers from zero to four: created, active, exhausted,
/// closed, expired. A session becomes active once, is exhausted only while active,
/// and ends by being closed or by expiring.
pub proof fn sessions_go_forward(from: SessionState, to: SessionState)
    ensures
        SessionState::Created.code() == 0,
        SessionState::Active.code() == 1,
        SessionState::Exhausted.code() == 2,
        SessionState::Closed.code() == 3,
        SessionState::Expired.code() == 4,
        legal_step(from, to) ==> from.code() < to.code() && from.code() <= 1,
        legal_step(from, SessionState::Active) <==> from == SessionState::Created,
        legal_step(from, SessionState::Exhausted) <==> from == SessionState::Active,
        legal_step(from, SessionState::Closed) <==> from.code() <= 1,
        legal_step(from, SessionState::Expired) <==> from.code() <= 1,
        !legal_step(from, SessionState::Created),
        from.terminal() <==> from.code() >= 2,
{
}

/// A logged operation gets the next number of the log and the next place in its
/// session; the entry says who did what, when and with what result, and no earlier
/// entry changes.
pub proof fn operations_are_logged(
    before: Ledger,
    after: Ledger,
    session_id: u64,
    actor: Address,
    operation_type: Seq<char>,
    result_data: u64,
    other: u64,
)
    requires
        operation_logged(
            before,
            after.sessions,
            session_id,
            actor,
            operation_type,
            result_data,
        ),
        before.sessions.log_count < u64::MAX,
        operations_of(before, session_id) < u64::MAX,
    ensures
        ({
            let id = before.sessions.log_count;
            let log = after.sessions.logs@[id];
            &&& after.sessions.log_count == id + 1
            &&& after.sessions.logs@.contains_key(id)
            &&& log.log_id == id
            &&& log.session_id == session_id
            &&& log.actor == actor
            &&& log.operation.session_id == session_id
            &&& log.operation.operation_index == operations_of(before, session_id)
            &&& log.operation.operation_type@ == operation_type
            &&& log.operation.timestamp == before.clock.timestamp
            &&& log.operation.status@ == "success"@
            &&& log.operation.result_data == result_data
            &&& operations_of(after, session_id) == operations_of(before, session_id) + 1
            &&& other != session_id ==> operations_of(after, other) == operations_of(before, other)
            &&& other != id ==> after.sessions.logs@.contains_key(other)
                == before.sessions.logs@.contains_key(other) && after.sessions.logs@[other]
                == before.sessions.logs@[other]
        }),
{
}

/// The announcement of an operation carries its number in the log, its session and
/// its place in it.
pub proof fn operations_are_announced(before: Ledger, session_id: u64, operation_type: &'static str)
    ensures
        operation_announced(before, session_id, operation_type) matches Event::AuditLogged(e) && {
            &&& e.log_id == before.sessions.log_count
            &&& e.session_id == session_id
            &&& e.operation_index == operations_of(before, session_id)
            &&& e.operation_type == operation_type
        },
{
}

/// A page of the log holds the stored entries with numbers from the first up to
/// the last, each once and in the order of the numbers.
pub proof fn log_pages_are_complete(logs: Map<u64, AuditLog>, from: u64, to: u64)
    requires
        from <= to,
    ensures
        log_range(logs, from as int, to as int) == Seq::new(
            (to - from) as nat,
            |i: int| (from + i) as u64,
        ).filter(|id: u64| logs.contains_key(id)).map_values(|id: u64| logs[id]),
    decreases to - from,
{
    let keep = |id: u64| logs.contains_key(id);
    let entry = |id: u64| logs[id];
    let ids = Seq::new((to - from) as nat, |i: int| (from + i) as u64);
    reveal(Seq::filter);
    if from < to {
        let rest = Seq::new((to - 1 - from) as nat, |i: int| (from + i) as u64);
        log_pages_are_complete(logs, from, (to - 1) as u64);
        assert(ids.drop_last() =~= rest);
        assert(ids.last() == (to - 1) as u64);
        if keep(ids.last()) {
            assert(ids.filter(keep) == rest.filter(keep).push(ids.last()));
            assert(rest.filter(keep).push(ids.last()).map_values(entry) =~= rest.filter(
                keep,
            ).map_values(entry).push(entry(ids.last())));
        } else {
            assert(ids.filter(keep) == rest.filter(keep));
        }
    } else {
        assert(ids =~= Seq::<u64>::empty());
        assert(ids.filter(keep).map_values(entry) =~= Seq::<AuditLog>::empty());
    }
}

/// The entries of a session from one place up to another are those that are listed
/// at these places and still stored, in their order.
pub proof fn session_pages_are_complete(env: Ledger, session_id: u64, from: u64, to: u64)
    requires
        from <= to,
    ensures
        session_log_range(env.sessions, session_id, from as int, to as int) == Seq::new(
            (to - from) as nat,
            |i: int| (from + i) as u64,
        ).filter(
            |i: u64|
                env.sessions.session_logs@.contains_key((session_id, i))
                    && env.sessions.logs@.contains_key(env.sessions.session_logs@[(session_id, i)]),
        ).map_values(|i: u64| env.sessions.logs@[env.sessions.session_logs@[(session_id, i)]]),
    decreases to - from,
{
    let keep = |i: u64|
        env.sessions.session_logs@.contains_key((session_id, i)) && env.sessions.logs@.contains_key(
            env.sessions.session_logs@[(session_id, i)],
        );
    let entry = |i: u64| env.sessions.logs@[env.sessions.session_logs@[(session_id, i)]];
    let ids = Seq::new((to - from) as nat, |i: int| (from + i) as u64);
    reveal(Seq::filter);
    if from < to {
        let rest = Seq::new((to - 1 - from) as nat, |i: int| (from + i) as u64);
        session_pages_are_complete(env, session_id, from, (to - 1) as u64);
        assert(ids.drop_last() =~= rest);
        assert(ids.last() == (to - 1) as u64);
        if keep(ids.last()) {
            assert(ids.filter(keep) == rest.filter(keep).push(ids.last()));
            assert(rest.filter(keep).push(ids.last()).map_values(entry) =~= rest.filter(
                keep,
            ).map_values(entry).push(entry(ids.last())));
        } else {
            assert(ids.filter(keep) == rest.filter(keep));
        }
    } else {
        assert(ids =~= Seq::<u64>::empty());
        assert(ids.filter(keep).map_values(entry) =~= Seq::<AuditLog>::empty());
    }
}

/// A page ends after as many entries as asked for, after fifty, or with the log,
/// whichever comes first.
pub proof fn pages_end_in_time(offset: u64, limit: u64, total: u64)
    requires
        offset <= total,
    ensures
        offset <= page_end(offset, limit, total) <= total,
        page_end(offset, limit, total) - offset <= limit,
        page_end(offset, limit, total) - offset <= 50,
        page_end(offset, limit, total) == total || page_end(offset, limit, total) - offset == limit
            || page_end(offset, limit, total) - offset == 50,
{
}

/// Pruning drops exactly the entries among the first ids that are older than the
/// time, and counts them.
pub proof fn pruning_drops_the_old(logs: Map<u64, AuditLog>, time: u64, n: int, id: u64)
    ensures
        pruned_logs(logs, time, n).contains_key(id) <==> logs.contains_key(id) && !(id < n
            && logs[id].operation.timestamp < time),
        pruned_logs(logs, time, n).contains_key(id) ==> pruned_logs(logs, time, n)[id] == logs[id],
{
}

/// Pruning counts one for each entry that it drops.
pub proof fn pruning_counts_the_old(logs: Map<u64, AuditLog>, time: u64, n: nat)
    requires
        n <= u64::MAX,
    ensures
        old_count(logs, time, n as int) == Seq::new(n, |i: int| i as u64).filter(
            |id: u64| logs.contains_key(id) && logs[id].operation.timestamp < time,
        ).len(),
    decreases n,
{
    let keep = |id: u64| logs.contains_key(id) && logs[id].operation.timestamp < time;
    let ids = Seq::new(n, |i: int| i as u64);
    reveal(Seq::filter);
    if n > 0 {
        let rest = Seq::new((n - 1) as nat, |i: int| i as u64);
        pruning_counts_the_old(logs, time, (n - 1) as nat);
        assert(ids.drop_last() =~= rest);
        assert(ids.last() == (n - 1) as u64);
    } else {
        assert(ids =~= Seq::<u64>::empty());
    }
}

/// Pruning looks at no more than the first hundred ids. It happens by itself only
/// where entries are kept for a number of days, a threshold is set and the log has
/// passed it; it then drops what is older than those days.
pub proof fn pruning_follows_the_settings(env: Ledger)
    requires
        env.config.audit_retention is Some ==> env.config.audit_retention->0 <= 3650,
    ensures
        scan_limit(env) <= 100,
        scan_limit(env) <= env.sessions.log_count,
        scan_limit(env) == 100 || scan_limit(env) == env.sessions.log_count,
        prunes_itself(env) <==> {
            &&& env.config.audit_retention is Some
            &&& env.config.audit_retention->0 > 0
            &&& env.config.auto_prune is Some
            &&& env.config.auto_prune->0 > 0
            &&& env.sessions.log_count > env.config.auto_prune->0
        },
        env.config.audit_retention is Some && env.clock.timestamp >= env.config.audit_retention->0
            * 86_400 ==> retention_start(env) == env.clock.timestamp
            - env.config.audit_retention->0 * 86_400,
        env.config.audit_retention is Some && env.clock.timestamp < env.config.audit_retention->0
            * 86_400 ==> retention_start(env) == 0,
{
}

/// An export lists its entries in hexadecimal, each in quotes and separated by
/// commas.
pub proof fn exports_are_lists(items: Seq<Vec<u8>>, more: Vec<u8>)
    ensures
        hex_list(Seq::<Vec<u8>>::empty()) == Seq::<char>::empty(),
        items.len() > 0 ==> hex_list(items.push(more)) == hex_list(items) + seq![','] + quoted_hex(
            more@,
        ),
        hex_list(seq![more]) == quoted_hex(more@),
        quoted_hex(more@).len() == 2 * more@.len() + 2,
        quoted_hex(more@)[0] == '"',
        quoted_hex(more@).last() == '"',
{
    assert(items.push(more).drop_last() =~= items);
    crate::distributed_correlation::hex_text_shape(more@);
}

} // verus!
