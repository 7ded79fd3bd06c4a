use crate::types::TimerState;
use vstd::prelude::*;

verus! {

// ── Construction ────────────────────────────────────────────────────

/// A fresh, stopped timer. A limit of zero seconds (or none) makes a
/// count-up timer with no limit at all.
pub fn create_timer(limit_seconds: Option<u32>) -> (t: TimerState)
    ensures
        t.start_ms is None,
        t.elapsed_ms == 0,
        t.limit_ms == (match limit_seconds {
            Some(s) => if s > 0 {
                Some((s * 1000) as u64)
            } else {
                None
            },
            None => None,
        }),
        !t.running,
        !t.expired,
{
    let limit_ms = match limit_seconds {
        Some(s) => if s > 0 {
            Some((s as u64) * 1000)
        } else {
            None
        },
        None => None,
    };
    TimerState { start_ms: None, elapsed_ms: 0, limit_ms, running: false, expired: false }
}

// ── Transitions ─────────────────────────────────────────────────────

/// Start the clock at `now_ms`. Everything but the start instant and the
/// running flag is preserved. An expired timer is terminal and is never
/// restarted; a session makes a new one instead.
pub fn start_timer(state: TimerState, now_ms: u64) -> (t: TimerState)
    requires
        !state.expired,
    ensures
        t.start_ms == Some(now_ms),
        t.running,
        t.elapsed_ms == state.elapsed_ms,
        t.limit_ms == state.limit_ms,
        !t.expired,
{
    TimerState { start_ms: Some(now_ms), running: true, ..state }
}

/// The elapsed time a tick at `now_ms` computes: the distance from the start
/// instant, never negative.
pub open spec fn spec_elapsed(start_ms: u64, now_ms: u64) -> u64 {
    if now_ms >= start_ms {
        (now_ms - start_ms) as u64
    } else {
        0
    }
}

/// Whether a tick at `now_ms` expires the timer: only a timer with a limit
/// expires, exactly when the elapsed time reaches it.
pub open spec fn spec_tick_expires(state: TimerState, now_ms: u64) -> bool {
    match (state.start_ms, state.limit_ms) {
        (Some(start), Some(limit)) => spec_elapsed(start, now_ms) >= limit,
        _ => false,
    }
}

/// Advance the clock to `now_ms`. A timer that is not running, or was never
/// started, is returned unchanged. Otherwise the elapsed time is recomputed
/// from the start instant; reaching the limit expires the timer and stops it,
/// and an expired timer stays expired.
pub fn tick_timer(state: TimerState, now_ms: u64) -> (t: TimerState)
    ensures
        !state.running ==> t == state,
        state.running && state.start_ms is None ==> t == state,
        state.running && state.start_ms is Some ==> {
            &&& t.elapsed_ms == spec_elapsed(state.start_ms->0, now_ms)
            &&& t.expired == spec_tick_expires(state, now_ms)
            &&& t.running == !spec_tick_expires(state, now_ms)
            &&& t.start_ms == state.start_ms
            &&& t.limit_ms == state.limit_ms
        },
{
    if !state.running {
        return state;
    }
    let start = match state.start_ms {
        Some(t) => t,
        None => { return state },
    };
    let elapsed_ms = if now_ms >= start {
        now_ms - start
    } else {
        0
    };
    let expired = match state.limit_ms {
        Some(limit) => elapsed_ms >= limit,
        None => false,
    };
    TimerState { elapsed_ms, expired, running: !expired, ..state }
}

// ── Reading the clock ───────────────────────────────────────────────

/// Time left before the limit, in milliseconds; `None` means the timer has no
/// limit and counts up forever. Never negative: past the limit it reads zero.
pub fn remaining_ms(state: &TimerState) -> (r: Option<u64>)
    ensures
        r == (match state.limit_ms {
            None => None::<u64>,
            Some(limit) => Some(
                if limit >= state.elapsed_ms {
                    (limit - state.elapsed_ms) as u64
                } else {
                    0
                },
            ),
        }),
{
    match state.limit_ms {
        None => None,
        Some(limit) => if limit >= state.elapsed_ms {
            Some(limit - state.elapsed_ms)
        } else {
            Some(0)
        },
    }
}

} // verus!
