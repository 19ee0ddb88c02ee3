//! Properties that relate the timer operations to one another.

use vstd::prelude::*;
use crate::state::TimerState;
use crate::ops::{
    cancel_spec, create_spec, increase_spec, remaining_spec, sat_add, tail_step_spec, toggle_spec,
};

verus! {

/// Extending a timer whose expiry is still in the future moves the expiry
/// forward by exactly the given duration (saturating), and never backward.
/// A pause mark, if any, is untouched.
pub proof fn lemma_increase_extends(s: TimerState, now: u64, duration: u64)
    requires
        s.is_active(),
        s.expiry_of() > now,
    ensures
        increase_spec(s, now, duration).is_active(),
        increase_spec(s, now, duration).expiry_of() == sat_add(s.expiry_of(), duration),
        increase_spec(s, now, duration).expiry_of() >= s.expiry_of(),
        increase_spec(s, now, duration).is_paused() == s.is_paused(),
{
}

/// Extending a timer that has expired — and whose extended expiry would still
/// not lie in the future — discards the old base entirely: the result is a
/// fresh running timer of length exactly `duration`, measured from `now`.
pub proof fn lemma_increase_restarts(s: TimerState, now: u64, duration: u64)
    requires
        s.is_active(),
        sat_add(s.expiry_of(), duration) <= now,
    ensures
        increase_spec(s, now, duration) == create_spec(now, duration),
        increase_spec(s, now, duration) == (TimerState::Running {
            expiry: sat_add(now, duration),
        }),
{
}

/// Pausing and later resuming preserves the remaining time: with the timer
/// unexpired at the pause and no saturation, the expiry after the round trip
/// has advanced by exactly the seconds spent paused.
pub proof fn lemma_toggle_round_trip(expiry: u64, pause_at: u64, resume_at: u64)
    requires
        pause_at <= resume_at,
        pause_at < expiry,
        expiry + (resume_at - pause_at) <= u64::MAX,
    ensures
        toggle_spec(
            toggle_spec(TimerState::Running { expiry }, pause_at),
            resume_at,
        ) == (TimerState::Running { expiry: (expiry + (resume_at - pause_at)) as u64 }),
{
}

/// Cancelling is idempotent: with no timer it is not an error, leaves no
/// timer, and cancelling twice is the same as cancelling once.
pub proof fn lemma_cancel_idempotent(s: TimerState)
    ensures
        cancel_spec(cancel_spec(s)) == cancel_spec(s),
        cancel_spec(TimerState::Idle) == TimerState::Idle,
        !cancel_spec(s).is_active(),
{
}

/// No timer exists after a cancel, after the polling loop's own cleanup on
/// expiry, or before anything was created.
pub proof fn lemma_no_timer_after_cleanup(s: TimerState, now: u64)
    ensures
        !cancel_spec(s).is_active(),
        tail_step_spec(s, now).notify ==> !tail_step_spec(s, now).next.is_active(),
        !(TimerState::Idle).is_active(),
{
}

/// While the expiry notification has not fired, the polling loop leaves the
/// state alone; and the notification fires exactly when an existing timer is
/// out of whole seconds.
pub proof fn lemma_tail_step_shape(s: TimerState, now: u64)
    ensures
        !tail_step_spec(s, now).notify ==> tail_step_spec(s, now).next == s,
        tail_step_spec(s, now).notify == (s.is_active() && remaining_spec(s, now) == 0),
{
}

} // verus!
