//! The five timer operations, as pure transitions over `TimerState`.
//!
//! Each operation has a spec-level transition function that says exactly what
//! the next state is, and an executable counterpart proved equal to it. The
//! caller supplies `now`, the current wall-clock time in whole seconds since
//! the Unix epoch; nothing here reads a clock or touches storage.

use vstd::prelude::*;
use crate::state::TimerState;

verus! {

/// `a + b`, stopping at the largest representable time.
pub open spec fn sat_add(a: u64, b: u64) -> u64 {
    if a + b <= u64::MAX {
        (a + b) as u64
    } else {
        u64::MAX
    }
}

/// `a - b`, stopping at zero.
pub open spec fn sat_sub(a: u64, b: u64) -> u64 {
    if a >= b {
        (a - b) as u64
    } else {
        0
    }
}

/// A fresh timer of length `duration`, measured from `now`.
pub open spec fn create_spec(now: u64, duration: u64) -> TimerState {
    TimerState::Running { expiry: sat_add(now, duration) }
}

/// Cancelling removes the timer and any pause, whatever the state was.
pub open spec fn cancel_spec(s: TimerState) -> TimerState {
    TimerState::Idle
}

/// Extending a timer by `duration`.
///
/// With no timer this starts a fresh one of length `duration`. With a timer
/// whose extended expiry is still in the future, the expiry moves forward by
/// exactly `duration` (saturating) and a pause is kept. If even the extended
/// expiry is not in the future, the old base is discarded and a fresh timer of
/// length exactly `duration` starts (unpaused).
pub open spec fn increase_spec(s: TimerState, now: u64, duration: u64) -> TimerState {
    match s {
        TimerState::Idle => create_spec(now, duration),
        TimerState::Running { expiry } => {
            if sat_add(expiry, duration) > now {
                TimerState::Running { expiry: sat_add(expiry, duration) }
            } else {
                create_spec(now, duration)
            }
        },
        TimerState::Paused { expiry, paused_at } => {
            if sat_add(expiry, duration) > now {
                TimerState::Paused { expiry: sat_add(expiry, duration), paused_at }
            } else {
                create_spec(now, duration)
            }
        },
    }
}

/// Dropping the pause mark while keeping the expiry.
pub open spec fn unpause(s: TimerState) -> TimerState {
    match s {
        TimerState::Paused { expiry, .. } => TimerState::Running { expiry },
        _ => s,
    }
}

/// Pausing a running timer records `now`; resuming a paused timer pushes the
/// expiry forward by the time spent paused (clock anomalies count as zero) and
/// drops the pause mark. Without a timer, toggling does nothing.
pub open spec fn toggle_spec(s: TimerState, now: u64) -> TimerState {
    match s {
        TimerState::Idle => TimerState::Idle,
        TimerState::Running { expiry } => TimerState::Paused { expiry, paused_at: now },
        TimerState::Paused { expiry, paused_at } => {
            let delta = sat_sub(now, paused_at);
            if delta > 0 {
                unpause(increase_spec(s, now, delta))
            } else {
                unpause(s)
            }
        },
    }
}

/// Create a timer of `duration` seconds measured from `now`.
pub fn create(now: u64, duration: u64) -> (r: TimerState)
    ensures
        r == create_spec(now, duration),
{
    TimerState::Running { expiry: now.saturating_add(duration) }
}

/// Remove the timer and any pause mark. Cancelling when no timer exists is
/// not an error and also leaves no timer.
pub fn cancel(s: TimerState) -> (r: TimerState)
    ensures
        r == cancel_spec(s),
        !r.is_active(),
{
    TimerState::Idle
}

/// Extend the timer by `duration` seconds, or start a fresh one as
/// `increase_spec` says.
pub fn increase(s: TimerState, now: u64, duration: u64) -> (r: TimerState)
    ensures
        r == increase_spec(s, now, duration),
{
    match s {
        TimerState::Idle => create(now, duration),
        TimerState::Running { expiry } => {
            let extended = expiry.saturating_add(duration);
            if extended > now {
                TimerState::Running { expiry: extended }
            } else {
                create(now, duration)
            }
        },
        TimerState::Paused { expiry, paused_at } => {
            let extended = expiry.saturating_add(duration);
            if extended > now {
                TimerState::Paused { expiry: extended, paused_at }
            } else {
                create(now, duration)
            }
        },
    }
}

/// Pause or resume the timer.
pub fn toggle(s: TimerState, now: u64) -> (r: TimerState)
    ensures
        r == toggle_spec(s, now),
{
    match s {
        TimerState::Idle => TimerState::Idle,
        TimerState::Running { expiry } => TimerState::Paused { expiry, paused_at: now },
        TimerState::Paused { expiry, paused_at } => {
            let delta = now.saturating_sub(paused_at);
            if delta > 0 {
                match increase(s, now, delta) {
                    TimerState::Paused { expiry: e, .. } => TimerState::Running { expiry: e },
                    other => other,
                }
            } else {
                TimerState::Running { expiry }
            }
        },
    }
}

/// What one round of the polling display loop decided.
#[derive(PartialEq, Eq, Structural, Clone, Copy, Debug)]
pub struct TailStep {
    /// Seconds left on the timer (zero once it has expired).
    pub remaining: u64,
    /// Whether the pause icon should be shown instead of the play icon.
    pub paused: bool,
    /// Whether the expiry notification fires on this round.
    pub notify: bool,
    /// The state after this round (the timer is removed once it expires).
    pub next: TimerState,
}

/// Seconds left on the timer: until expiry from `now` while running, from the
/// pause time while paused, and zero without a timer or past expiry.
pub open spec fn remaining_spec(s: TimerState, now: u64) -> u64 {
    match s {
        TimerState::Idle => 0,
        TimerState::Running { expiry } => sat_sub(expiry, now),
        TimerState::Paused { expiry, paused_at } => sat_sub(expiry, paused_at),
    }
}

/// One round of the polling loop: the notification fires exactly when an
/// existing timer has no whole second left, and firing removes the timer.
pub open spec fn tail_step_spec(s: TimerState, now: u64) -> TailStep {
    let remaining = remaining_spec(s, now);
    let notify = s.is_active() && remaining < 1;
    TailStep {
        remaining,
        paused: s.is_paused(),
        notify,
        next: if notify {
            TimerState::Idle
        } else {
            s
        },
    }
}

/// Decide one round of the polling display loop.
pub fn tail_step(s: TimerState, now: u64) -> (r: TailStep)
    ensures
        r == tail_step_spec(s, now),
{
    let remaining: u64 = match s {
        TimerState::Idle => 0,
        TimerState::Running { expiry } => expiry.saturating_sub(now),
        TimerState::Paused { expiry, paused_at } => expiry.saturating_sub(paused_at),
    };
    let notify = s.active() && remaining < 1;
    TailStep {
        remaining,
        paused: s.paused(),
        notify,
        next: if notify {
            TimerState::Idle
        } else {
            s
        },
    }
}

} // verus!
