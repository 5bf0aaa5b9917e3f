//! The repeating reminder timer: one instance per cycle, emitting numbered
//! ticks at a fixed cadence until its owner stops it.

use vstd::prelude::*;

verus! {

use crate::StartupError;

/// One reminder tick. `sequence` starts at 1 for each ticker instance and
/// increments by 1 per emission; `startstamp` is the virtual time of the
/// emission; `cycle` names the cycle whose ticker produced the tick, which is
/// what lets a stale tick from an ended cycle be told apart from a live one.
#[derive(Clone, Copy, Debug, PartialEq, Eq, Structural)]
pub struct TickEvent {
    pub sequence: u64,
    pub startstamp: u64,
    pub cycle: u64,
}

/// The model of one repeating timer instance. It begins emitting one
/// interval after it starts, numbering ticks from 1.
#[derive(Clone, Copy, Debug, PartialEq, Eq, Structural)]
pub struct Ticker {
    pub interval: u64,
    pub started_at: u64,
    pub next_seq: u64,
    pub cycle: u64,
}

impl Ticker {
    pub open spec fn wf(self) -> bool {
        self.interval >= 1 && self.next_seq >= 1
    }

    /// A tick falls due at `now` when a whole, positive number of intervals
    /// has elapsed since the ticker started.
    pub open spec fn due_spec(self, now: u64) -> bool {
        now > self.started_at && (now - self.started_at) % (self.interval as int) == 0
    }

    /// Start a fresh ticker; a non-positive interval is refused here, before
    /// anything runs.
    pub fn start(interval: u64, cycle: u64, now: u64) -> (r: Result<Ticker, StartupError>)
        ensures
            r is Ok <==> interval >= 1,
            r matches Ok(t) ==> t == (Ticker { interval, started_at: now, next_seq: 1, cycle }),
            r matches Err(e) ==> e == StartupError::NonPositiveInterval,
    {
        if interval >= 1 {
            Ok(Ticker { interval, started_at: now, next_seq: 1, cycle })
        } else {
            Err(StartupError::NonPositiveInterval)
        }
    }

    pub fn due(&self, now: u64) -> (b: bool)
        requires
            self.wf(),
        ensures
            b == self.due_spec(now),
    {
        now > self.started_at && (now - self.started_at) % self.interval == 0
    }

    /// Emit the tick that is due at `now`; the sequence number advances by one.
    pub fn emit(&mut self, now: u64) -> (e: TickEvent)
        requires
            old(self).wf(),
            old(self).next_seq < u64::MAX,
        ensures
            e == (TickEvent {
                sequence: old(self).next_seq,
                startstamp: now,
                cycle: old(self).cycle,
            }),
            final(self).interval == old(self).interval,
            final(self).started_at == old(self).started_at,
            final(self).cycle == old(self).cycle,
            final(self).next_seq == old(self).next_seq + 1,
    {
        let e = TickEvent { sequence: self.next_seq, startstamp: now, cycle: self.cycle };
        self.next_seq = self.next_seq + 1;
        e
    }
}

} // verus!
