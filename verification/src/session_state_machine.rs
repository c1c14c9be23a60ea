//! The life of a session.
use vstd::prelude::*;

verus! {

/// Where a session stands.
#[derive(Clone, Copy, Debug, PartialEq, Eq, Structural)]
pub enum SessionState {
    Created,
    Active,
    Exhausted,
    Closed,
    Expired,
}

/// Why a session cannot go from one state to another.
#[derive(Clone, Copy, Debug, PartialEq, Eq, Structural)]
pub enum SessionTransitionError {
    /// The session has ended.
    FromTerminal,
    /// The two states are not joined by a step.
    NotAllowed,
}

impl SessionState {
    /// The number under which the state is stored.
    pub open spec fn code(self) -> u32 {
        match self {
            SessionState::Created => 0,
            SessionState::Active => 1,
            SessionState::Exhausted => 2,
            SessionState::Closed => 3,
            SessionState::Expired => 4,
        }
    }

    /// The state stored under a number; a number that stands for no state
    /// counts as expired.
    pub open spec fn of_code(n: u32) -> SessionState {
        if n == 0 {
            SessionState::Created
        } else if n == 1 {
            SessionState::Active
        } else if n == 2 {
            SessionState::Exhausted
        } else if n == 3 {
            SessionState::Closed
        } else {
            SessionState::Expired
        }
    }

    /// Whether the session has ended.
    pub open spec fn terminal(self) -> bool {
        self == SessionState::Exhausted || self == SessionState::Closed || self
            == SessionState::Expired
    }

    /// The number under which the state is stored.
    pub fn as_u32(self) -> (n: u32)
        ensures
            n == self.code(),
    {
        match self {
            SessionState::Created => 0,
            SessionState::Active => 1,
            SessionState::Exhausted => 2,
            SessionState::Closed => 3,
            SessionState::Expired => 4,
        }
    }

    /// The state stored under a number.
    pub fn from_u32(n: u32) -> (s: Self)
        ensures
            s == SessionState::of_code(n),
    {
        match n {
            0 => SessionState::Created,
            1 => SessionState::Active,
            2 => SessionState::Exhausted,
            3 => SessionState::Closed,
            _ => SessionState::Expired,
        }
    }

    /// Whether the session has ended.
    pub fn is_terminal(self) -> (r: bool)
        ensures
            r == self.terminal(),
    {
        match self {
            SessionState::Created => false,
            SessionState::Active => false,
            _ => true,
        }
    }
}

/// The steps of a session: it becomes active, and it ends once.
pub open spec fn legal_step(from: SessionState, to: SessionState) -> bool {
    match (from, to) {
        (SessionState::Created, SessionState::Active) => true,
        (SessionState::Created, SessionState::Closed) => true,
        (SessionState::Created, SessionState::Expired) => true,
        (SessionState::Active, SessionState::Exhausted) => true,
        (SessionState::Active, SessionState::Closed) => true,
        (SessionState::Active, SessionState::Expired) => true,
        _ => false,
    }
}

/// Whether a session may go from one state to another.
pub fn is_legal_transition(from: SessionState, to: SessionState) -> (r: bool)
    ensures
        r == legal_step(from, to),
{
    match (from, to) {
        (SessionState::Created, SessionState::Active) => true,
        (SessionState::Created, SessionState::Closed) => true,
        (SessionState::Created, SessionState::Expired) => true,
        (SessionState::Active, SessionState::Exhausted) => true,
        (SessionState::Active, SessionState::Closed) => true,
        (SessionState::Active, SessionState::Expired) => true,
        _ => false,
    }
}

/// Refuses a step that is not legal, and says whether the session had ended.
pub fn validate_transition(from: SessionState, to: SessionState) -> (r: Result<
    (),
    SessionTransitionError,
>)
    ensures
        match r {
            Ok(_) => legal_step(from, to),
            Err(e) => !legal_step(from, to) && e == (if from.terminal() {
                SessionTransitionError::FromTerminal
            } else {
                SessionTransitionError::NotAllowed
            }),
        },
{
    if is_legal_transition(from, to) {
        Ok(())
    } else if from.is_terminal() {
        Err(SessionTransitionError::FromTerminal)
    } else {
        Err(SessionTransitionError::NotAllowed)
    }
}

/// The last second at which a session is open.
pub open spec fn expiry_of(created_at: u64, ttl: u64) -> u64 {
    if created_at + ttl <= u64::MAX {
        (created_at + ttl) as u64
    } else {
        u64::MAX
    }
}

/// The last second at which a session is open.
pub fn session_expiry(created_at: u64, ttl: u64) -> (t: u64)
    ensures
        t == expiry_of(created_at, ttl),
{
    created_at.saturating_add(ttl)
}

/// A session that has ended never takes another step, and the number of a
/// state reads back the state.
pub proof fn ended_sessions_stay(from: SessionState, to: SessionState)
    ensures
        from.terminal() ==> !legal_step(from, to),
        SessionState::of_code(from.code()) == from,
{
}

} // verus!
