//! The one-shot alarm timer: armed once per cycle, it fires exactly once,
//! a fixed duration after it was armed, and is spent thereafter.

use vstd::prelude::*;

verus! {

use crate::StartupError;

/// The single alarm of one cycle: `fired_at` is the virtual time at which the
/// one-shot timer fired.
#[derive(Clone, Copy, Debug, PartialEq, Eq, Structural)]
pub struct AlarmEvent {
    pub fired_at: u64,
}

/// The model of a timer that fires exactly once, `duration` after it was
/// armed. Firing consumes it: a spent timer cannot fire again, and it cannot
/// be cancelled mid-flight.
#[derive(Clone, Copy, Debug, PartialEq, Eq, Structural)]
pub struct OneShotTimer {
    pub duration: u64,
    pub armed_at: u64,
}

impl OneShotTimer {
    pub open spec fn wf(self) -> bool {
        self.duration >= 1
    }

    /// The timer is due once its full duration has elapsed.
    pub open spec fn due_spec(self, now: u64) -> bool {
        now - self.armed_at >= self.duration
    }

    /// Arm a fresh timer; a non-positive duration is refused here, before
    /// anything runs.
    pub fn start(duration: u64, now: u64) -> (r: Result<OneShotTimer, StartupError>)
        ensures
            r is Ok <==> duration >= 1,
            r matches Ok(t) ==> t == (OneShotTimer { duration, armed_at: now }),
            r matches Err(e) ==> e == StartupError::NonPositiveInterval,
    {
        if duration >= 1 {
            Ok(OneShotTimer { duration, armed_at: now })
        } else {
            Err(StartupError::NonPositiveInterval)
        }
    }

    pub fn due(&self, now: u64) -> (b: bool)
        requires
            now >= self.armed_at,
        ensures
            b == self.due_spec(now),
    {
        now - self.armed_at >= self.duration
    }

    /// Resolve the timer: it is consumed, so it fires exactly once.
    pub fn fire(self, now: u64) -> (e: AlarmEvent)
        ensures
            e == (AlarmEvent { fired_at: now }),
    {
        AlarmEvent { fired_at: now }
    }
}

} // verus!
