//! A countdown-timer state controller for a status-bar widget.
//!
//! The timer's whole state is three shapes: no timer, a running timer with an
//! absolute expiry time, or a paused timer that also remembers when it was
//! paused. Every operation (create, cancel, increase, toggle, and one step of
//! the polling display loop) is a pure function from the current state and the
//! current wall-clock time to the next state, so the persistence and clock
//! layer around this library stays free of decisions.

pub mod codec;
pub mod display;
pub mod laws;
pub mod ops;
pub mod state;
