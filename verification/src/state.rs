//! The timer's state and the questions asked of it.
//!
//! All times are whole seconds since the Unix epoch. A pause time exists only
//! while an expiry time does: the enum makes that invariant structural instead
//! of a convention between two independently optional values.

use vstd::prelude::*;

verus! {

/// The complete state of the (single) countdown timer.
#[derive(PartialEq, Eq, Structural, Clone, Copy, Debug)]
pub enum TimerState {
    /// No timer exists.
    Idle,
    /// A timer is counting down towards `expiry` (seconds since the epoch).
    Running { expiry: u64 },
    /// A timer exists but is paused; `paused_at` is the time the pause began.
    Paused { expiry: u64, paused_at: u64 },
}

impl TimerState {
    /// A timer exists (running or paused).
    pub open spec fn is_active(self) -> bool {
        self !is Idle
    }

    /// The timer exists and is paused.
    pub open spec fn is_paused(self) -> bool {
        self is Paused
    }

    /// The absolute expiry time of an active timer.
    pub open spec fn expiry_of(self) -> u64
        recommends
            self.is_active(),
    {
        match self {
            TimerState::Idle => 0,
            TimerState::Running { expiry } => expiry,
            TimerState::Paused { expiry, .. } => expiry,
        }
    }

    /// Whether a timer exists, as the persistence layer asks it.
    pub fn active(&self) -> (r: bool)
        ensures
            r == self.is_active(),
    {
        !matches!(self, TimerState::Idle)
    }

    /// Whether the timer is paused.
    pub fn paused(&self) -> (r: bool)
        ensures
            r == self.is_paused(),
    {
        matches!(self, TimerState::Paused { .. })
    }
}

} // verus!
