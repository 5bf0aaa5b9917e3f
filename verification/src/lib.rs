//! A periodic reminder and a one-shot alarm whose cycle a human operator
//! resets by hand. The heart of the crate is the alarm-cycle scheduler: a
//! state machine, driven by a virtual clock and by reset commands, that owns
//! one reminder ticker and one one-shot timer per cycle and restarts both,
//! from the original configured durations, when a reset arrives after the
//! alarm has fired. Around it stand the fan-in dispatcher's decision logic
//! and the rendering of events for a terminal front end.

use vstd::prelude::*;

pub mod dispatcher;
pub mod oneshot;
pub mod render;
pub mod scheduler;
pub mod supervisor;
pub mod ticker;

verus! {

/// A non-negative time span, counted in whole seconds.
#[derive(Clone, Copy, Debug, PartialEq, Eq, Structural)]
pub struct TimeSpan {
    pub secs: u64,
}

impl TimeSpan {
    pub fn from_secs(secs: u64) -> (t: TimeSpan)
        ensures
            t.secs == secs,
    {
        TimeSpan { secs }
    }
}

/// The one startup failure: a timer was asked to start with a non-positive
/// interval. It is surfaced synchronously, before any timer runs.
#[derive(Clone, Copy, Debug, PartialEq, Eq, Structural)]
pub enum StartupError {
    NonPositiveInterval,
}

} // verus!
