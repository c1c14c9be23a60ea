//! Sessions and the audit log of what is done in them.
use crate::address::Address;
use crate::contract::events::{AuditLogEvent, Event, SessionClosedEvent, SessionCreatedEvent};
use crate::contract::ledger::{
    admin_refusal, auth_refusal, either, follows, refuse_when, AnchorKitContract, ConfigState,
    ContractError, Ledger, SessionStore,
};
use crate::contract::types::{
    AuditLog, OperationContext, Session, DEFAULT_SESSION_TTL, MAX_AUDIT_LOG_RETENTION_DAYS,
    MAX_OPS_PER_SESSION,
};
use crate::distributed_correlation::push_hex;
use crate::errors::ErrorCode;
use crate::session_state_machine::{
    expiry_of, is_legal_transition, legal_step, session_expiry, validate_transition, SessionState,
    SessionTransitionError,
};
use vstd::prelude::*;

verus! {

/// The lifetime of a session in seconds.
pub open spec fn session_ttl(s: Session) -> u64 {
    if s.session_ttl_seconds == 0 {
        DEFAULT_SESSION_TTL
    } else {
        s.session_ttl_seconds
    }
}

/// Whether the lifetime of a session is over.
pub open spec fn session_over(s: Session, now: u64) -> bool {
    now > expiry_of(s.created_at, session_ttl(s))
}

/// The state that is stored for a session.
pub open spec fn state_of(s: Session) -> SessionState {
    SessionState::of_code(s.state)
}

/// The session in another state.
pub open spec fn in_state(s: Session, state: SessionState) -> Session {
    Session { state: state.code(), ..s }
}

/// How many operations were done in a session.
pub open spec fn operations_of(env: Ledger, session_id: u64) -> u64 {
    if env.sessions.operation_counts@.contains_key(session_id) {
        env.sessions.operation_counts@[session_id]
    } else {
        0
    }
}

/// Why no operation may be done in a session.
pub open spec fn open_refusal(env: Ledger, session_id: u64) -> Option<ContractError> {
    let s = env.sessions.records@[session_id];
    if !env.sessions.records@.contains_key(session_id) {
        Some(ContractError::Code(ErrorCode::SessionNotFound))
    } else if session_over(s, env.clock.timestamp) {
        Some(ContractError::Code(ErrorCode::SessionExpired))
    } else {
        match state_of(s) {
            SessionState::Closed => Some(ContractError::Code(ErrorCode::SessionClosed)),
            SessionState::Expired => Some(ContractError::Code(ErrorCode::SessionExpired)),
            SessionState::Exhausted => Some(
                ContractError::Code(ErrorCode::SessionOperationLimitExceeded),
            ),
            _ => refuse_when(
                operations_of(env, session_id) >= MAX_OPS_PER_SESSION,
                ErrorCode::SessionOperationLimitExceeded,
            ),
        }
    }
}

/// Whether the lifetime of a session is over while it is not marked as ended.
pub open spec fn expires_now(env: Ledger, session_id: u64) -> bool {
    &&& env.sessions.records@.contains_key(session_id)
    &&& session_over(env.sessions.records@[session_id], env.clock.timestamp)
    &&& !state_of(env.sessions.records@[session_id]).terminal()
}

/// Whether a session has had all its operations while it is not marked as
/// ended.
pub open spec fn exhausts_now(env: Ledger, session_id: u64) -> bool {
    &&& env.sessions.records@.contains_key(session_id)
    &&& !session_over(env.sessions.records@[session_id], env.clock.timestamp)
    &&& operations_of(env, session_id) >= MAX_OPS_PER_SESSION
    &&& legal_step(state_of(env.sessions.records@[session_id]), SessionState::Exhausted)
}

/// The sessions after one was opened for an operation: the first operation
/// makes a session active.
pub open spec fn opened_sessions(env: Ledger, session_id: u64) -> Map<u64, Session> {
    let all = env.sessions.records@;
    if state_of(all[session_id]) == SessionState::Created {
        all.insert(session_id, in_state(all[session_id], SessionState::Active))
    } else {
        all
    }
}

/// The ledger after a session was opened for an operation.
pub open spec fn session_opened(before: Ledger, after: Ledger, session_id: u64) -> bool {
    &&& after == (Ledger {
        sessions: SessionStore { records: after.sessions.records, ..before.sessions },
        ..before
    })
    &&& after.sessions.records@ == opened_sessions(before, session_id)
}

/// The announcement that a session has ended.
pub open spec fn session_ended(env: Ledger, session_id: u64) -> SessionClosedEvent {
    SessionClosedEvent {
        session_id,
        initiator: env.sessions.records@[session_id].initiator,
        timestamp: env.clock.timestamp,
    }
}

/// The sessions after one was settled: where it has expired or is exhausted it
/// is marked so.
pub open spec fn settled_sessions(env: Ledger, session_id: u64) -> Map<u64, Session> {
    let all = env.sessions.records@;
    if expires_now(env, session_id) {
        all.insert(session_id, in_state(all[session_id], SessionState::Expired))
    } else if exhausts_now(env, session_id) {
        all.insert(session_id, in_state(all[session_id], SessionState::Exhausted))
    } else {
        all
    }
}

/// The announcements after a session was settled: its expiry is announced.
pub open spec fn settled_events(env: Ledger, session_id: u64) -> Seq<Event> {
    if expires_now(env, session_id) {
        env.events@.push(Event::SessionExpired(session_ended(env, session_id)))
    } else {
        env.events@
    }
}

/// Why a session cannot be closed.
pub open spec fn close_refusal(env: Ledger, session_id: u64, initiator: Address) -> Option<
    ContractError,
> {
    let s = env.sessions.records@[session_id];
    either(
        auth_refusal(env, initiator),
        if !env.sessions.records@.contains_key(session_id) {
            Some(ContractError::Code(ErrorCode::SessionNotFound))
        } else if initiator != s.initiator {
            Some(ContractError::Code(ErrorCode::UnauthorizedAttestor))
        } else if session_over(s, env.clock.timestamp) {
            Some(ContractError::Code(ErrorCode::SessionExpired))
        } else if state_of(s) == SessionState::Closed {
            Some(ContractError::Code(ErrorCode::SessionClosed))
        } else if !legal_step(state_of(s), SessionState::Closed) {
            Some(ContractError::Code(ErrorCode::IllegalTransition))
        } else {
            None
        },
    )
}

/// Whether `log` is the entry of an operation that succeeded.
pub open spec fn is_entry(
    log: AuditLog,
    log_id: u64,
    session_id: u64,
    operation_index: u64,
    actor: Address,
    operation_type: Seq<char>,
    now: u64,
    result_data: u64,
) -> bool {
    &&& log.log_id == log_id
    &&& log.session_id == session_id
    &&& log.actor == actor
    &&& log.operation.session_id == session_id
    &&& log.operation.operation_index == operation_index
    &&& log.operation.operation_type@ == operation_type
    &&& log.operation.timestamp == now
    &&& log.operation.status@ == "success"@
    &&& log.operation.result_data == result_data
}

/// The sessions after an operation was logged: counted in its session and over
/// all, stored, and listed in its session.
pub open spec fn operation_logged(
    before: Ledger,
    after: SessionStore,
    session_id: u64,
    actor: Address,
    operation_type: Seq<char>,
    result_data: u64,
) -> bool {
    let op_index = operations_of(before, session_id);
    let log_id = before.sessions.log_count;
    let log = after.logs@[log_id];
    &&& after == (SessionStore {
        records: after.records,
        operation_counts: after.operation_counts,
        log_count: (log_id + 1) as u64,
        logs: after.logs,
        session_logs: after.session_logs,
        ..before.sessions
    })
    &&& after.operation_counts@ == before.sessions.operation_counts@.insert(
        session_id,
        (op_index + 1) as u64,
    )
    &&& after.logs@ == before.sessions.logs@.insert(log_id, log)
    &&& is_entry(
        log,
        log_id,
        session_id,
        op_index,
        actor,
        operation_type,
        before.clock.timestamp,
        result_data,
    )
    &&& after.session_logs@ == before.sessions.session_logs@.insert((session_id, op_index), log_id)
}

/// The announcement of a logged operation.
pub open spec fn operation_announced(
    before: Ledger,
    session_id: u64,
    operation_type: &'static str,
) -> Event {
    Event::AuditLogged(
        AuditLogEvent {
            log_id: before.sessions.log_count,
            session_id,
            operation_index: operations_of(before, session_id),
            operation_type,
            status: "success",
            result_data: 0,
        },
    )
}

/// Whether one more operation can be logged.
pub open spec fn can_log(env: Ledger) -> bool {
    env.sessions.log_count < u64::MAX
}

/// The stored entries with ids from `from` up to `to`.
pub open spec fn log_range(logs: Map<u64, AuditLog>, from: int, to: int) -> Seq<AuditLog>
    decreases to - from,
{
    if from >= to {
        Seq::empty()
    } else {
        let rest = log_range(logs, from, to - 1);
        if logs.contains_key((to - 1) as u64) {
            rest.push(logs[(to - 1) as u64])
        } else {
            rest
        }
    }
}

/// The stored entries of a session with positions from `from` up to `to`.
pub open spec fn session_log_range(
    sessions: SessionStore,
    session_id: u64,
    from: int,
    to: int,
) -> Seq<AuditLog>
    decreases to - from,
{
    if from >= to {
        Seq::empty()
    } else {
        let rest = session_log_range(sessions, session_id, from, to - 1);
        let key = (session_id, (to - 1) as u64);
        if sessions.session_logs@.contains_key(key) && sessions.logs@.contains_key(
            sessions.session_logs@[key],
        ) {
            rest.push(sessions.logs@[sessions.session_logs@[key]])
        } else {
            rest
        }
    }
}

/// The end of a page that starts at `offset`: fifty entries further at most,
/// and never past the total.
pub open spec fn page_end(offset: u64, limit: u64, total: u64) -> int {
    let wanted = if limit < 50 {
        limit as int
    } else {
        50
    };
    if offset + wanted < total {
        offset + wanted
    } else {
        total as int
    }
}

fn end_of_page(offset: u64, limit: u64, total: u64) -> (end: u64)
    ensures
        end == page_end(offset, limit, total),
{
    let effective_limit: u64 = if limit < 50 {
        limit
    } else {
        50
    };
    let end: u64 = offset.saturating_add(effective_limit);
    if end < total {
        end
    } else {
        total
    }
}

/// Whether an entry is older than a time.
pub open spec fn is_older(log: AuditLog, time: u64) -> bool {
    log.operation.timestamp < time
}

/// The entries without the old ones among the first `n` ids.
pub open spec fn pruned_logs(logs: Map<u64, AuditLog>, before_timestamp: u64, n: int) -> Map<
    u64,
    AuditLog,
> {
    logs.remove_keys(
        Set::new(
            |id: u64| id < n && logs.contains_key(id) && is_older(logs[id], before_timestamp),
        ),
    )
}

/// How many of the first `n` entries are old.
pub open spec fn old_count(logs: Map<u64, AuditLog>, before_timestamp: u64, n: int) -> int
    decreases n,
{
    if n <= 0 {
        0
    } else {
        old_count(logs, before_timestamp, n - 1) + (if logs.contains_key((n - 1) as u64)
            && is_older(logs[(n - 1) as u64], before_timestamp) {
            1int
        } else {
            0int
        })
    }
}

/// How many ids a pruning goes through.
pub open spec fn scan_limit(env: Ledger) -> int {
    if env.sessions.log_count < 100 {
        env.sessions.log_count as int
    } else {
        100
    }
}

/// The ledger after old entries were pruned.
pub open spec fn logs_pruned(before: Ledger, after: Ledger, before_timestamp: u64) -> bool {
    &&& after == (Ledger {
        sessions: SessionStore { logs: after.sessions.logs, ..before.sessions },
        ..before
    })
    &&& after.sessions.logs@ == pruned_logs(
        before.sessions.logs@,
        before_timestamp,
        scan_limit(before),
    )
}

/// The configured retention in days.
pub open spec fn retention_in(env: Ledger) -> u64 {
    match env.config.audit_retention {
        Some(d) => d,
        None => 0,
    }
}

/// The number of entries from which pruning happens by itself; zero for never.
pub open spec fn prune_threshold(env: Ledger) -> u32 {
    match env.config.auto_prune {
        Some(n) => n,
        None => 0,
    }
}

/// Whether reading the count prunes old entries: never while they are kept for
/// ever.
pub open spec fn prunes_itself(env: Ledger) -> bool {
    retention_in(env) > 0 && prune_threshold(env) > 0 && env.sessions.log_count > prune_threshold(
        env,
    )
}

/// The time before which entries are pruned.
pub open spec fn retention_start(env: Ledger) -> u64 {
    crate::arith::floored_difference(
        env.clock.timestamp,
        (retention_in(env) * 86_400) as u64,
    )
}

/// The hexadecimal digits of some bytes, in quotes.
pub open spec fn quoted_hex(bytes: Seq<u8>) -> Seq<char> {
    seq!['"'] + crate::distributed_correlation::hex_text(bytes) + seq!['"']
}

/// Encoded entries as a list of hexadecimal strings.
pub open spec fn hex_list(items: Seq<Vec<u8>>) -> Seq<char>
    decreases items.len(),
{
    if items.len() == 0 {
        Seq::empty()
    } else if items.len() == 1 {
        quoted_hex(items[0]@)
    } else {
        hex_list(items.drop_last()) + seq![','] + quoted_hex(items.last()@)
    }
}

/// The ledger after a session was opened for an initiator.
pub open spec fn session_created(
    before: Ledger,
    after: Ledger,
    initiator: Address,
    out: u64,
) -> bool {
    let id = before.sessions.count;
    let now = before.clock.timestamp;
    &&& out == id
    &&& after == (Ledger {
        sessions: SessionStore {
            count: (id + 1) as u64,
            records: after.sessions.records,
            ..before.sessions
        },
        events: after.events,
        ..before
    })
    &&& after.sessions.records@ == before.sessions.records@.insert(
        id,
        (Session {
            session_id: id,
            initiator,
            created_at: now,
            nonce: 0,
            operation_count: 0,
            session_ttl_seconds: DEFAULT_SESSION_TTL,
            closed: false,
            state: SessionState::Created.code(),
        }),
    )
    &&& after.events@ == before.events@.push(
        Event::SessionCreated(
            SessionCreatedEvent { session_id: id, initiator, timestamp: now },
        ),
    )
}

/// The ledger after a session was closed.
pub open spec fn session_closed(before: Ledger, after: Ledger, session_id: u64) -> bool {
    let s = before.sessions.records@[session_id];
    &&& after == (Ledger {
        sessions: SessionStore {
            records: after.sessions.records,
            ..before.sessions
        },
        events: after.events,
        ..before
    })
    &&& after.sessions.records@ == before.sessions.records@.insert(
        session_id,
        (Session { closed: true, ..in_state(s, SessionState::Closed) }),
    )
    &&& after.events@ == before.events@.push(
        Event::SessionClosed(session_ended(before, session_id)),
    )
}

/// Why a retention of audit entries is refused.
pub open spec fn retention_refusal(env: Ledger, retention_days: u64) -> Option<ContractError> {
    either(
        admin_refusal(env),
        refuse_when(
            retention_days > MAX_AUDIT_LOG_RETENTION_DAYS,
            ErrorCode::ValidationError,
        ),
    )
}

/// The ledger after the retention of audit entries was set.
pub open spec fn retention_set(before: Ledger, after: Ledger, retention_days: u64) -> bool {
    after == (Ledger {
        config: ConfigState {
            audit_retention: Some(retention_days),
            ..before.config
        },
        ..before
    })
}

/// The ledger after the threshold of automatic pruning was set.
pub open spec fn auto_prune_set(before: Ledger, after: Ledger, n: u32) -> bool {
    after == (Ledger {
        config: ConfigState { auto_prune: Some(n), ..before.config },
        ..before
    })
}

/// Why a session cannot be read.
pub open spec fn session_refusal(env: Ledger, session_id: u64) -> Option<ContractError> {
    refuse_when(
        !env.sessions.records@.contains_key(session_id),
        ErrorCode::SessionNotFound,
    )
}

/// The state of a session by number at present.
pub open spec fn state_now(env: Ledger, session_id: u64) -> u32 {
    if session_over(
        env.sessions.records@[session_id],
        env.clock.timestamp,
    ) {
        SessionState::Expired.code()
    } else {
        env.sessions.records@[session_id].state
    }
}

/// The last entries of a session.
pub open spec fn last_entries(env: Ledger, session_id: u64, limit: u64) -> Seq<AuditLog> {
    let total = operations_of(env, session_id);
    let start = if total > limit {
        total - limit
    } else {
        0
    };
    session_log_range(env.sessions, session_id, start, total as int)
}

/// The ledger after reading the count pruned old entries.
pub open spec fn pruned_by_itself(before: Ledger, after: Ledger) -> bool {
    let start = retention_start(before);
    let pruned = old_count(before.sessions.logs@, start, scan_limit(before));
    &&& logs_pruned(
        before,
        (Ledger { events: before.events, ..after }),
        start,
    )
    &&& after.events@ == (if pruned > 0 {
        before.events@.push(
            Event::AuditPruned(
                AuditLogEvent {
                    log_id: 0,
                    session_id: 0,
                    operation_index: 0,
                    operation_type: "auto_prune",
                    status: "success",
                    result_data: pruned as u64,
                },
            ),
        )
    } else {
        before.events@
    })
}

impl AnchorKitContract {
    /// Opens a session for an initiator. Ids count up from zero.
    pub fn create_session(env: &mut Ledger, initiator: Address) -> (r: Result<u64, ContractError>)
        requires
            old(env).sessions.count < u64::MAX,
        ensures
            follows(r, auth_refusal(*old(env), initiator)),
            r is Err ==> *final(env) == *old(env),
            r is Ok ==> session_created(*old(env), *final(env), initiator, r->Ok_0),
    {
        if let Err(e) = env.require_auth(&initiator) {
            return Err(e);
        }
        let session_id: u64 = env.sessions.count;
        env.sessions.count = session_id + 1;
        let now: u64 = env.clock.timestamp;
        let session = Session {
            session_id,
            initiator,
            created_at: now,
            nonce: 0,
            operation_count: 0,
            session_ttl_seconds: DEFAULT_SESSION_TTL,
            closed: false,
            state: SessionState::Created.as_u32(),
        };
        env.sessions.records.set(session_id, session);
        env.publish(
            Event::SessionCreated(SessionCreatedEvent { session_id, initiator, timestamp: now }),
        );
        Ok(session_id)
    }

    fn session_is_over(session: &Session, now: u64) -> (r: bool)
        ensures
            r == session_over(*session, now),
    {
        let ttl: u64 = if session.session_ttl_seconds == 0 {
            DEFAULT_SESSION_TTL
        } else {
            session.session_ttl_seconds
        };
        now > session_expiry(session.created_at, ttl)
    }

    /// Closes a session. Only its initiator may, and only while it is neither
    /// over nor ended.
    pub fn close_session(env: &mut Ledger, session_id: u64, initiator: Address) -> (r: Result<
        (),
        ContractError,
    >)
        ensures
            follows(r, close_refusal(*old(env), session_id, initiator)),
            r is Err ==> *final(env) == *old(env),
            r is Ok ==> session_closed(*old(env), *final(env), session_id),
    {
        if let Err(e) = env.require_auth(&initiator) {
            return Err(e);
        }
        let mut session = match env.sessions.records.get(&session_id) {
            Some(s) => *s,
            None => {
                return Err(ContractError::Code(ErrorCode::SessionNotFound));
            },
        };
        if !initiator.equals(&session.initiator) {
            return Err(ContractError::Code(ErrorCode::UnauthorizedAttestor));
        }
        let from = SessionState::from_u32(session.state);
        let now: u64 = env.clock.timestamp;
        if Self::session_is_over(&session, now) {
            return Err(ContractError::Code(ErrorCode::SessionExpired));
        }
        match validate_transition(from, SessionState::Closed) {
            Ok(_) => {},
            Err(SessionTransitionError::FromTerminal) => {
                if from == SessionState::Closed {
                    return Err(ContractError::Code(ErrorCode::SessionClosed));
                }
                return Err(ContractError::Code(ErrorCode::IllegalTransition));
            },
            Err(_) => {
                return Err(ContractError::Code(ErrorCode::IllegalTransition));
            },
        }
        session.closed = true;
        session.state = SessionState::Closed.as_u32();
        env.sessions.records.set(session_id, session);
        env.publish(
            Event::SessionClosed(SessionClosedEvent { session_id, initiator, timestamp: now }),
        );
        Ok(())
    }

    /// Requires that a session is open for one more operation.
    pub(crate) fn check_session_open(env: &Ledger, session_id: u64) -> (r: Result<
        (),
        ContractError,
    >)
        ensures
            follows(r, open_refusal(*env, session_id)),
    {
        let session = match env.sessions.records.get(&session_id) {
            Some(s) => *s,
            None => {
                return Err(ContractError::Code(ErrorCode::SessionNotFound));
            },
        };
        if Self::session_is_over(&session, env.clock.timestamp) {
            return Err(ContractError::Code(ErrorCode::SessionExpired));
        }
        match SessionState::from_u32(session.state) {
            SessionState::Closed => {
                return Err(ContractError::Code(ErrorCode::SessionClosed));
            },
            SessionState::Expired => {
                return Err(ContractError::Code(ErrorCode::SessionExpired));
            },
            SessionState::Exhausted => {
                return Err(ContractError::Code(ErrorCode::SessionOperationLimitExceeded));
            },
            SessionState::Created => {},
            SessionState::Active => {},
        }
        if Self::get_session_operation_count(env, session_id) >= MAX_OPS_PER_SESSION {
            return Err(ContractError::Code(ErrorCode::SessionOperationLimitExceeded));
        }
        Ok(())
    }

    /// Makes a session active by its first operation.
    pub(crate) fn open_session(env: &mut Ledger, session_id: u64)
        requires
            open_refusal(*old(env), session_id) is None,
        ensures
            session_opened(*old(env), *final(env), session_id),
    {
        let created = match env.sessions.records.get(&session_id) {
            Some(s) => SessionState::from_u32(s.state) == SessionState::Created,
            None => false,
        };
        if created {
            if let Some(session) = env.sessions.records.get_mut(&session_id) {
                session.state = SessionState::Active.as_u32();
            }
        }
    }

    /// Requires that a session is open for one more operation, and makes it
    /// active.
    pub fn require_session_open(env: &mut Ledger, session_id: u64) -> (r: Result<
        (),
        ContractError,
    >)
        ensures
            follows(r, open_refusal(*old(env), session_id)),
            r is Err ==> *final(env) == *old(env),
            r is Ok ==> session_opened(*old(env), *final(env), session_id),
    {
        if let Err(e) = Self::check_session_open(env, session_id) {
            return Err(e);
        }
        Self::open_session(env, session_id);
        Ok(())
    }

    /// Marks a session that has expired or is exhausted, and announces the
    /// expiry. A refused operation changes nothing, so the mark is a call of its
    /// own.
    pub fn settle_session(env: &mut Ledger, session_id: u64)
        ensures
            *final(env) == (Ledger {
                sessions: SessionStore {
                    records: final(env).sessions.records,
                    ..old(env).sessions
                },
                events: final(env).events,
                ..*old(env)
            }),
            final(env).sessions.records@ == settled_sessions(*old(env), session_id),
            final(env).events@ == settled_events(*old(env), session_id),
    {
        let mut session = match env.sessions.records.get(&session_id) {
            Some(s) => *s,
            None => {
                return;
            },
        };
        let now: u64 = env.clock.timestamp;
        let from = SessionState::from_u32(session.state);
        if Self::session_is_over(&session, now) {
            if !from.is_terminal() {
                session.state = SessionState::Expired.as_u32();
                env.sessions.records.set(session_id, session);
                env.publish(
                    Event::SessionExpired(
                        SessionClosedEvent {
                            session_id,
                            initiator: session.initiator,
                            timestamp: now,
                        },
                    ),
                );
            }
            return;
        }
        if Self::get_session_operation_count(env, session_id) >= MAX_OPS_PER_SESSION
            && is_legal_transition(from, SessionState::Exhausted) {
            session.state = SessionState::Exhausted.as_u32();
            env.sessions.records.set(session_id, session);
        }
    }

    /// Logs an operation of a session.
    pub(crate) fn log_operation(
        env: &mut Ledger,
        session_id: u64,
        actor: Address,
        operation_type: &'static str,
        result_data: u64,
    ) -> (log: AuditLogEvent)
        requires
            can_log(*old(env)),
            operations_of(*old(env), session_id) < u64::MAX,
        ensures
            *final(env) == (Ledger { sessions: final(env).sessions, ..*old(env) }),
            final(env).sessions.records == old(env).sessions.records,
            operation_logged(
                *old(env),
                final(env).sessions,
                session_id,
                actor,
                operation_type@,
                result_data,
            ),
            Event::AuditLogged(log) == operation_announced(*old(env), session_id, operation_type),
    {
        let op_index: u64 = Self::get_session_operation_count(env, session_id);
        env.sessions.operation_counts.set(session_id, op_index + 1);
        let log_id: u64 = env.sessions.log_count;
        env.sessions.log_count = log_id + 1;
        let audit = AuditLog {
            log_id,
            session_id,
            actor,
            operation: OperationContext {
                session_id,
                operation_index: op_index,
                operation_type: operation_type.to_owned(),
                timestamp: env.clock.timestamp,
                status: "success".to_owned(),
                result_data,
            },
        };
        env.sessions.logs.set(log_id, audit);
        env.sessions.session_logs.set((session_id, op_index), log_id);
        AuditLogEvent {
            log_id,
            session_id,
            operation_index: op_index,
            operation_type,
            status: "success",
            result_data: 0,
        }
    }

    /// The session with a given id.
    pub fn get_session(env: &Ledger, session_id: u64) -> (r: Result<Session, ContractError>)
        ensures
            follows(
                r,
                refuse_when(
                    !env.sessions.records@.contains_key(session_id),
                    ErrorCode::SessionNotFound,
                ),
            ),
            r is Ok ==> r->Ok_0 == env.sessions.records@[session_id],
    {
        match env.sessions.records.get(&session_id) {
            Some(s) => Ok(*s),
            None => Err(ContractError::Code(ErrorCode::SessionNotFound)),
        }
    }

    /// The state of a session by number; one whose lifetime is over has expired.
    pub fn get_session_state(env: &Ledger, session_id: u64) -> (r: Result<u32, ContractError>)
        ensures
            follows(r, session_refusal(*env, session_id)),
            r is Ok ==> r->Ok_0 == state_now(*env, session_id),
    {
        match env.sessions.records.get(&session_id) {
            Some(s) => {
                if Self::session_is_over(s, env.clock.timestamp) {
                    return Ok(SessionState::Expired.as_u32());
                }
                Ok(s.state)
            },
            None => Err(ContractError::Code(ErrorCode::SessionNotFound)),
        }
    }

    /// The audit entry with a given id.
    pub fn get_audit_log(env: &Ledger, log_id: u64) -> (r: Result<AuditLog, ContractError>)
        ensures
            follows(
                r,
                refuse_when(
                    !env.sessions.logs@.contains_key(log_id),
                    ErrorCode::AuditLogNotFound,
                ),
            ),
            r is Ok ==> r->Ok_0 == env.sessions.logs@[log_id],
    {
        match env.sessions.logs.get(&log_id) {
            Some(l) => Ok(l.clone()),
            None => Err(ContractError::Code(ErrorCode::AuditLogNotFound)),
        }
    }

    fn session_entries(env: &Ledger, session_id: u64, from: u64, to: u64) -> (r: Vec<AuditLog>)
        ensures
            r@ == session_log_range(env.sessions, session_id, from as int, to as int),
    {
        let mut results: Vec<AuditLog> = Vec::new();
        if from >= to {
            return results;
        }
        let mut i: u64 = from;
        while i < to
            invariant
                from <= i <= to,
                results@ == session_log_range(env.sessions, session_id, from as int, i as int),
            decreases to - i,
        {
            if let Some(log_id) = env.sessions.session_logs.get(&(session_id, i)) {
                if let Some(entry) = env.sessions.logs.get(log_id) {
                    results.push(entry.clone());
                }
            }
            i = i + 1;
        }
        results
    }

    /// The last `limit` entries of a session, oldest first.
    pub fn get_session_audit_logs(env: &Ledger, session_id: u64, limit: u64) -> (r: Vec<AuditLog>)
        ensures
            r@ == last_entries(*env, session_id, limit),
    {
        let total: u64 = Self::get_session_operation_count(env, session_id);
        let start: u64 = if total > limit {
            total - limit
        } else {
            0
        };
        Self::session_entries(env, session_id, start, total)
    }

    /// How many operations were done in a session.
    pub fn get_session_operation_count(env: &Ledger, session_id: u64) -> (n: u64)
        ensures
            n == operations_of(*env, session_id),
    {
        match env.sessions.operation_counts.get(&session_id) {
            Some(n) => *n,
            None => 0,
        }
    }

    /// Sets for how many days audit entries are kept; zero means for ever.
    pub fn set_audit_log_retention(env: &mut Ledger, retention_days: u64) -> (r: Result<
        (),
        ContractError,
    >)
        ensures
            follows(r, retention_refusal(*old(env), retention_days)),
            r is Err ==> *final(env) == *old(env),
            r is Ok ==> retention_set(*old(env), *final(env), retention_days),
    {
        if let Err(e) = env.require_admin() {
            return Err(e);
        }
        if retention_days > MAX_AUDIT_LOG_RETENTION_DAYS {
            return Err(ContractError::Code(ErrorCode::ValidationError));
        }
        env.config.audit_retention = Some(retention_days);
        Ok(())
    }

    /// For how many days audit entries are kept.
    pub fn get_audit_log_retention(env: &Ledger) -> (d: u64)
        ensures
            d == retention_in(*env),
    {
        match env.config.audit_retention {
            Some(d) => d,
            None => 0,
        }
    }

    /// How many audit entries were ever written. Where automatic pruning is on,
    /// entries are kept for a number of days only, and the count has passed its
    /// threshold, old entries are pruned, and announced when there were any.
    pub fn get_audit_log_count(env: &mut Ledger) -> (n: u64)
        requires
            retention_in(*old(env)) <= MAX_AUDIT_LOG_RETENTION_DAYS,
        ensures
            n == old(env).sessions.log_count,
            !prunes_itself(*old(env)) ==> *final(env) == *old(env),
            prunes_itself(*old(env)) ==> pruned_by_itself(*old(env), *final(env)),
    {
        let count: u64 = env.sessions.log_count;
        let threshold: u32 = match env.config.auto_prune {
            Some(n) => n,
            None => 0,
        };
        let retention_days: u64 = Self::get_audit_log_retention(env);
        if retention_days > 0 && threshold > 0 && count > threshold as u64 {
            let before_timestamp: u64 = env.clock.timestamp.saturating_sub(retention_days * 86_400);
            let pruned: u64 = Self::prune_audit_logs_internal(env, before_timestamp);
            if pruned > 0 {
                env.publish(
                    Event::AuditPruned(
                        AuditLogEvent {
                            log_id: 0,
                            session_id: 0,
                            operation_index: 0,
                            operation_type: "auto_prune",
                            status: "success",
                            result_data: pruned,
                        },
                    ),
                );
            }
        }
        count
    }

    fn entries(env: &Ledger, from: u64, to: u64) -> (r: Vec<AuditLog>)
        ensures
            r@ == log_range(env.sessions.logs@, from as int, to as int),
    {
        let mut results: Vec<AuditLog> = Vec::new();
        if from >= to {
            return results;
        }
        let mut i: u64 = from;
        while i < to
            invariant
                from <= i <= to,
                results@ == log_range(env.sessions.logs@, from as int, i as int),
            decreases to - i,
        {
            if let Some(entry) = env.sessions.logs.get(&i) {
                results.push(entry.clone());
            }
            i = i + 1;
        }
        results
    }

    /// A page of the audit log, fifty entries at most.
    pub fn get_audit_logs_paginated(env: &Ledger, offset: u64, limit: u64) -> (r: Vec<AuditLog>)
        ensures
            r@ == log_range(
                env.sessions.logs@,
                offset as int,
                page_end(offset, limit, env.sessions.log_count),
            ),
    {
        let end: u64 = end_of_page(offset, limit, env.sessions.log_count);
        Self::entries(env, offset, end)
    }

    /// A page of the entries of a session, fifty at most.
    pub fn get_session_logs_paginated(env: &Ledger, session_id: u64, offset: u64, limit: u64) -> (r:
        Vec<AuditLog>)
        ensures
            r@ == session_log_range(
                env.sessions,
                session_id,
                offset as int,
                page_end(offset, limit, operations_of(*env, session_id)),
            ),
    {
        let total: u64 = Self::get_session_operation_count(env, session_id);
        let end: u64 = end_of_page(offset, limit, total);
        Self::session_entries(env, session_id, offset, end)
    }

    fn prune_audit_logs_internal(env: &mut Ledger, before_timestamp: u64) -> (n: u64)
        ensures
            logs_pruned(*old(env), *final(env), before_timestamp),
            n == old_count(old(env).sessions.logs@, before_timestamp, scan_limit(*old(env))),
    {
        let total: u64 = env.sessions.log_count;
        let limit: u64 = if total < 100 {
            total
        } else {
            100
        };
        let mut pruned: u64 = 0;
        let mut i: u64 = 0;
        let ghost logs = old(env).sessions.logs@;
        assert(pruned_logs(logs, before_timestamp, 0) =~= logs);
        while i < limit
            invariant
                0 <= i <= limit <= 100,
                limit == scan_limit(*old(env)),
                logs == old(env).sessions.logs@,
                *env == (Ledger {
                    sessions: SessionStore { logs: env.sessions.logs, ..old(env).sessions },
                    ..*old(env)
                }),
                env.sessions.logs@ == pruned_logs(logs, before_timestamp, i as int),
                pruned == old_count(logs, before_timestamp, i as int),
                pruned <= i,
            decreases limit - i,
        {
            let old_entry = match env.sessions.logs.get(&i) {
                Some(entry) => entry.operation.timestamp < before_timestamp,
                None => false,
            };
            let ghost here = env.sessions.logs@;
            if old_entry {
                env.sessions.logs.remove(&i);
                pruned = pruned + 1;
            }
            proof {
                let next = pruned_logs(logs, before_timestamp, i + 1);
                assert(here.contains_key(i) == logs.contains_key(i));
                assert(env.sessions.logs@ =~= next);
            }
            i = i + 1;
        }
        pruned
    }

    /// Drops the entries among the first hundred ids that are older than a
    /// time, and counts them.
    pub fn prune_audit_logs(env: &mut Ledger, before_timestamp: u64) -> (r: Result<
        u64,
        ContractError,
    >)
        ensures
            follows(r, admin_refusal(*old(env))),
            r is Err ==> *final(env) == *old(env),
            r is Ok ==> {
                &&& logs_pruned(*old(env), *final(env), before_timestamp)
                &&& r->Ok_0 == old_count(
                    old(env).sessions.logs@,
                    before_timestamp,
                    scan_limit(*old(env)),
                )
            },
    {
        if let Err(e) = env.require_admin() {
            return Err(e);
        }
        Ok(Self::prune_audit_logs_internal(env, before_timestamp))
    }

    /// Sets the number of entries from which pruning happens by itself; zero
    /// turns it off.
    pub fn set_auto_prune_threshold(env: &mut Ledger, n: u32) -> (r: Result<(), ContractError>)
        ensures
            follows(r, admin_refusal(*old(env))),
            r is Err ==> *final(env) == *old(env),
            r is Ok ==> auto_prune_set(*old(env), *final(env), n),
    {
        if let Err(e) = env.require_admin() {
            return Err(e);
        }
        env.config.auto_prune = Some(n);
        Ok(())
    }

    /// The entries that an export from `start_id` holds, fifty at most.
    pub fn audit_logs_to_export(env: &Ledger, start_id: u64, limit: u32) -> (r: Vec<AuditLog>)
        ensures
            r@ == log_range(
                env.sessions.logs@,
                start_id as int,
                page_end(start_id, limit as u64, env.sessions.log_count),
            ),
    {
        Self::get_audit_logs_paginated(env, start_id, limit as u64)
    }

    /// Encoded audit entries as a list of hexadecimal strings.
    pub fn export_audit_log_batch(encoded: &Vec<Vec<u8>>) -> (json: String)
        ensures
            json@ == seq!['['] + hex_list(encoded@) + seq![']'],
    {
        let mut json: String = String::new();
        json.push('[');
        let mut i: usize = 0;
        assert(encoded@.take(0).len() == 0);
        assert(json@ =~= seq!['['] + hex_list(encoded@.take(0)));
        while i < encoded.len()
            invariant
                0 <= i <= encoded@.len(),
                json@ == seq!['['] + hex_list(encoded@.take(i as int)),
            decreases encoded@.len() - i,
        {
            let ghost done = hex_list(encoded@.take(i as int));
            if i > 0 {
                json.push(',');
            }
            json.push('"');
            push_hex(&mut json, encoded[i].as_slice());
            json.push('"');
            proof {
                let next = encoded@.take(i + 1);
                assert(next.drop_last() =~= encoded@.take(i as int));
                assert(next.last() == encoded@[i as int]);
                if i == 0 {
                    assert(json@ =~= seq!['['] + quoted_hex(encoded@[0]@));
                } else {
                    assert(json@ =~= seq!['['] + (done + seq![','] + quoted_hex(
                        encoded@[i as int]@,
                    )));
                }
            }
            i = i + 1;
        }
        assert(encoded@.take(i as int) =~= encoded@);
        json.push(']');
        assert(json@ =~= seq!['['] + hex_list(encoded@) + seq![']']);
        json
    }
}

/// A session that has ended stays ended: it refuses every operation, and
/// settling it leaves it as it is.
pub proof fn ended_sessions_refuse_operations(env: Ledger, session_id: u64)
    requires
        env.sessions.records@.contains_key(session_id),
        state_of(env.sessions.records@[session_id]).terminal(),
    ensures
        open_refusal(env, session_id) is Some,
        settled_sessions(env, session_id) == env.sessions.records@,
        settled_events(env, session_id) == env.events@,
{
}

/// A session that was settled refuses operations exactly when it did before.
pub proof fn settling_changes_no_answer(before: Ledger, after: Ledger, session_id: u64)
    requires
        before.sessions.records@.contains_key(session_id),
        after.clock == before.clock,
        after.sessions.operation_counts == before.sessions.operation_counts,
        after.sessions.records@ == settled_sessions(before, session_id),
    ensures
        open_refusal(after, session_id) == open_refusal(before, session_id),
{
}

/// Opening and settling a session take only legal steps, and leave every other
/// session as it is.
pub proof fn sessions_take_legal_steps(env: Ledger, session_id: u64, other: u64)
    requires
        env.sessions.records@.contains_key(session_id),
    ensures
        ({
            let before = env.sessions.records@[session_id];
            let opened = opened_sessions(env, session_id)[session_id];
            let settled = settled_sessions(env, session_id)[session_id];
            &&& opened == before || legal_step(state_of(before), state_of(opened))
            &&& settled == before || legal_step(state_of(before), state_of(settled))
        }),
        other != session_id ==> opened_sessions(env, session_id).contains_key(other)
            == env.sessions.records@.contains_key(other) && opened_sessions(env, session_id)[other]
            == env.sessions.records@[other],
        other != session_id ==> settled_sessions(env, session_id).contains_key(other)
            == env.sessions.records@.contains_key(other) && settled_sessions(
            env,
            session_id,
        )[other] == env.sessions.records@[other],
{
}

/// Entries that are kept for ever are never pruned by reading the count.
pub proof fn no_retention_keeps_all(env: Ledger)
    requires
        retention_in(env) == 0,
    ensures
        !prunes_itself(env),
{
}

/// A new session is open until its lifetime is over, and then expires.
pub proof fn new_sessions_are_open(env: Ledger, session_id: u64)
    requires
        env.sessions.records@.contains_key(session_id),
        env.sessions.records@[session_id].state == SessionState::Created.code(),
        operations_of(env, session_id) == 0,
    ensures
        open_refusal(env, session_id) is None <==> !session_over(
            env.sessions.records@[session_id],
            env.clock.timestamp,
        ),
{
}

/// An operation that was logged reads back from the audit log and from the
/// entries of its session.
pub proof fn logged_operations_read_back(
    before: Ledger,
    after: Ledger,
    session_id: u64,
    actor: Address,
    operation_type: Seq<char>,
    result_data: u64,
)
    requires
        can_log(before),
        operations_of(before, session_id) < u64::MAX,
        operation_logged(before, after.sessions, session_id, actor, operation_type, result_data),
    ensures
        operations_of(after, session_id) == operations_of(before, session_id) + 1,
        after.sessions.logs@.contains_key(before.sessions.log_count),
        session_log_range(
            after.sessions,
            session_id,
            operations_of(before, session_id) as int,
            operations_of(after, session_id) as int,
        ) == seq![after.sessions.logs@[before.sessions.log_count]],
{
    let n = operations_of(before, session_id) as int;
    assert(session_log_range(after.sessions, session_id, n, n) =~= Seq::<AuditLog>::empty());
    assert(session_log_range(after.sessions, session_id, n, n + 1) =~= seq![
        after.sessions.logs@[before.sessions.log_count],
    ]);
}

} // verus!
