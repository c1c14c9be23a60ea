//! A fixed-window limit on how often an address may submit.
use vstd::prelude::*;

verus! {

/// Submissions allowed in a window unless configured otherwise.
pub const DEFAULT_MAX_SUBMISSIONS: u32 = 10;

/// Ledgers in a window unless configured otherwise.
pub const DEFAULT_WINDOW_LENGTH: u32 = 100;

/// How often an address may submit.
#[derive(Clone, Copy, Debug, PartialEq, Eq, Structural)]
pub struct RateLimitConfig {
    pub max_submissions: u32,
    pub window_length: u32,
}

/// How often an address has submitted in its window.
#[derive(Clone, Copy, Debug, PartialEq, Eq, Structural)]
pub struct RateLimitState {
    pub submission_count: u32,
    pub window_start_ledger: u32,
}

/// The limit that holds unless configured otherwise.
pub open spec fn default_limit() -> RateLimitConfig {
    RateLimitConfig {
        max_submissions: DEFAULT_MAX_SUBMISSIONS,
        window_length: DEFAULT_WINDOW_LENGTH,
    }
}

impl RateLimitConfig {
    /// The limit that holds unless configured otherwise.
    pub fn default_config() -> (c: Self)
        ensures
            c == default_limit(),
    {
        RateLimitConfig {
            max_submissions: DEFAULT_MAX_SUBMISSIONS,
            window_length: DEFAULT_WINDOW_LENGTH,
        }
    }

    /// Whether the limit lets anything through and has a window.
    pub open spec fn sound(self) -> bool {
        self.max_submissions > 0 && self.window_length > 0
    }

    /// Whether the limit lets anything through and has a window.
    pub fn is_sound(&self) -> (r: bool)
        ensures
            r == self.sound(),
    {
        self.max_submissions > 0 && self.window_length > 0
    }
}

/// Whether a window that began at `start` is over at ledger `now`.
pub open spec fn window_over(start: u32, length: u32, now: u32) -> bool {
    now >= u32::MAX || now >= start + length
}

/// Whether a window that began at `start` is over at ledger `now`.
pub fn is_window_expired(start: u32, length: u32, now: u32) -> (r: bool)
    ensures
        r == window_over(start, length, now),
{
    start.saturating_add(length) <= now
}

/// The count that a submission at ledger `now` adds to: a fresh one when the
/// window is over or nothing was counted yet.
pub open spec fn current_window(
    state: Option<RateLimitState>,
    config: RateLimitConfig,
    now: u32,
) -> RateLimitState {
    match state {
        Some(s) => if window_over(s.window_start_ledger, config.window_length, now) {
            RateLimitState { submission_count: 0, window_start_ledger: now }
        } else {
            s
        },
        None => RateLimitState { submission_count: 0, window_start_ledger: now },
    }
}

/// The count after a submission, or `None` when the window is full.
pub open spec fn counted(state: Option<RateLimitState>, config: RateLimitConfig, now: u32) -> Option<
    RateLimitState,
> {
    let w = current_window(state, config, now);
    if w.submission_count >= config.max_submissions {
        None
    } else {
        Some(
            RateLimitState {
                submission_count: (w.submission_count + 1) as u32,
                window_start_ledger: w.window_start_ledger,
            },
        )
    }
}

/// Counts a submission, or returns `None` when the window is full.
pub fn check_and_increment(
    state: Option<RateLimitState>,
    config: RateLimitConfig,
    now: u32,
) -> (r: Option<RateLimitState>)
    ensures
        r == counted(state, config, now),
{
    let mut w = RateLimitState { submission_count: 0, window_start_ledger: now };
    if let Some(s) = state {
        if !is_window_expired(s.window_start_ledger, config.window_length, now) {
            w = s;
        }
    }
    if w.submission_count >= config.max_submissions {
        return None;
    }
    Some(
        RateLimitState {
            submission_count: w.submission_count + 1,
            window_start_ledger: w.window_start_ledger,
        },
    )
}

/// Within one window no more submissions are counted than the limit allows.
pub proof fn counts_stay_within_limit(
    state: Option<RateLimitState>,
    config: RateLimitConfig,
    now: u32,
)
    ensures
        counted(state, config, now) is Some ==> counted(state, config, now)->0.submission_count
            <= config.max_submissions,
        state is Some && !window_over(state->0.window_start_ledger, config.window_length, now)
            && state->0.submission_count >= config.max_submissions ==> counted(state, config, now)
            is None,
{
}

} // verus!
