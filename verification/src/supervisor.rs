//! The reminder supervisor: the exclusive owner of the cycle's ticker.
//! At most one ticker is ever alive, by construction: `begin` demands that
//! none is, and `end` stops and drains the current one.

use vstd::prelude::*;

verus! {

use crate::ticker::{TickEvent, Ticker};

/// Owns exactly one ticker per cycle, or none between `end` and the next
/// `begin`.
#[derive(Clone, Copy, Debug, PartialEq, Eq, Structural)]
pub struct ReminderSupervisor {
    pub current: Option<Ticker>,
}

impl ReminderSupervisor {
    pub open spec fn running(self) -> bool {
        self.current is Some
    }

    pub open spec fn ticker(self) -> Ticker {
        self.current->Some_0
    }

    pub fn new() -> (s: ReminderSupervisor)
        ensures
            !s.running(),
    {
        ReminderSupervisor { current: None }
    }

    /// Start the cycle's ticker. Beginning while a previous ticker has not
    /// been ended would breach exclusive ownership, so the contract rules it
    /// out; a non-positive interval is ruled out the same way, the checked
    /// refusal standing at `Ticker::start`.
    pub fn begin(&mut self, interval: u64, cycle: u64, now: u64)
        requires
            !old(self).running(),
            interval >= 1,
        ensures
            final(self).running(),
            final(self).ticker() == (Ticker { interval, started_at: now, next_seq: 1, cycle }),
    {
        match Ticker::start(interval, cycle, now) {
            Ok(t) => {
                self.current = Some(t);
            },
            Err(_) => {
                proof {
                    assert(false);
                }
            },
        }
    }

    /// Stop the current ticker and drain it: afterwards no event of it can
    /// ever be emitted again, since the supervisor held the only handle.
    /// Ending an already-ended supervisor is a no-op.
    pub fn end(&mut self)
        ensures
            !final(self).running(),
    {
        self.current = None;
    }

    pub fn due(&self, now: u64) -> (b: bool)
        requires
            self.running(),
            self.ticker().wf(),
        ensures
            b == self.ticker().due_spec(now),
    {
        match &self.current {
            Some(t) => t.due(now),
            None => {
                proof {
                    assert(false);
                }
                false
            },
        }
    }

    /// Relay the due tick of the owned ticker.
    pub fn emit(&mut self, now: u64) -> (e: TickEvent)
        requires
            old(self).running(),
            old(self).ticker().wf(),
            old(self).ticker().next_seq < u64::MAX,
        ensures
            final(self).running(),
            e == (TickEvent {
                sequence: old(self).ticker().next_seq,
                startstamp: now,
                cycle: old(self).ticker().cycle,
            }),
            final(self).ticker() == (Ticker {
                next_seq: (old(self).ticker().next_seq + 1) as u64,
                ..old(self).ticker()
            }),
    {
        match &mut self.current {
            Some(t) => t.emit(now),
            None => {
                proof {
                    assert(false);
                }
                TickEvent { sequence: 1, startstamp: now, cycle: 0 }
            },
        }
    }
}

} // verus!
