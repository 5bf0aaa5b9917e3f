//! The alarm-cycle scheduler: one full cycle is {start reminder, arm the
//! one-shot alarm, wait for it to fire, wait for an operator reset, stop the
//! reminder, start over}. The scheduler is driven by a virtual clock that
//! advances one unit at a time and by operator resets; every transition is
//! given by a specification function, and the executable methods are proved
//! to follow them exactly.

use vstd::prelude::*;
use vstd::arithmetic::div_mod::*;

verus! {

use crate::StartupError;
use crate::TimeSpan;
use crate::oneshot::{AlarmEvent, OneShotTimer};
use crate::supervisor::ReminderSupervisor;
use crate::ticker::{TickEvent, Ticker};

/// The two live states of a cycle. Arming: the reminder runs and the
/// one-shot alarm is pending. AwaitingReset: the alarm has fired and is
/// spent; the reminder keeps running; only an operator reset moves the
/// scheduler on. There is no terminal state.
#[derive(Clone, Copy, Debug, PartialEq, Eq, Structural)]
pub enum SchedState {
    Arming,
    AwaitingReset,
}

/// One input to the scheduler: a unit step of the virtual clock, or an
/// operator reset command.
#[derive(Clone, Copy, Debug, PartialEq, Eq, Structural)]
pub enum Cmd {
    Advance,
    Reset,
}

/// The scheduler's whole state: the two configured durations (never changed
/// after start), the cycle state, the owned reminder supervisor and pending
/// one-shot timer, the virtual clock, and the counters that the cycle
/// properties speak of.
#[derive(Clone, Copy, Debug, PartialEq, Eq, Structural)]
pub struct AlarmCycleScheduler {
    pub alarm_d: u64,
    pub reminder_d: u64,
    pub state: SchedState,
    pub sup: ReminderSupervisor,
    pub alarm: Option<OneShotTimer>,
    pub now: u64,
    pub cycle_start: u64,
    pub cycle: u64,
    pub alarms: u64,
    pub resets: u64,
    pub last_alarm_at: u64,
}

impl AlarmCycleScheduler {
    /// Well-formedness: both durations positive; exactly one ticker alive,
    /// owned by the supervisor, belonging to the current cycle and numbered
    /// consistently with the clock; a one-shot pending exactly while Arming;
    /// the alarm count ahead of the reset count exactly while a fired alarm
    /// awaits its reset; and the previous alarm never later than the current
    /// cycle's start.
    pub open spec fn wf(self) -> bool {
        &&& self.alarm_d >= 1
        &&& self.reminder_d >= 1
        &&& self.cycle >= 1
        &&& self.cycle_start <= self.now
        &&& self.sup.running()
        &&& self.sup.ticker().interval == self.reminder_d
        &&& self.sup.ticker().started_at == self.cycle_start
        &&& self.sup.ticker().cycle == self.cycle
        &&& self.sup.ticker().next_seq == (self.now - self.cycle_start) / (
        self.reminder_d as int) + 1
        &&& (self.state is Arming <==> self.alarm is Some)
        &&& (self.alarm matches Some(o) ==> o.duration == self.alarm_d && o.armed_at
            == self.cycle_start && self.now - self.cycle_start < self.alarm_d)
        &&& (self.state is AwaitingReset ==> self.alarms >= 1 && self.last_alarm_at
            == self.cycle_start + self.alarm_d && self.last_alarm_at <= self.now)
        &&& self.alarms == self.resets + (if self.state is AwaitingReset {
            1int
        } else {
            0int
        })
        &&& self.cycle == self.resets + 1
        &&& (self.alarms >= 1 && self.state is Arming ==> self.last_alarm_at <= self.cycle_start)
    }

    /// The clock can take another unit step.
    pub open spec fn can_advance(self) -> bool {
        self.now < u64::MAX - 1
    }

    /// A reminder tick falls due at the next clock unit.
    pub open spec fn tick_due_next(self) -> bool {
        self.sup.running() && self.sup.ticker().due_spec((self.now + 1) as u64)
    }

    /// The pending one-shot falls due at the next clock unit.
    pub open spec fn alarm_due_next(self) -> bool {
        self.alarm matches Some(o) && o.due_spec((self.now + 1) as u64)
    }

    /// The tick, if any, that the next clock step emits: numbered by the
    /// owned ticker and tagged with the current cycle.
    pub open spec fn advance_tick(self) -> Option<TickEvent> {
        if self.can_advance() && self.tick_due_next() {
            Some(
                TickEvent {
                    sequence: self.sup.ticker().next_seq,
                    startstamp: (self.now + 1) as u64,
                    cycle: self.cycle,
                },
            )
        } else {
            None
        }
    }

    /// The alarm, if any, that the next clock step emits.
    pub open spec fn advance_alarm(self) -> Option<AlarmEvent> {
        if self.can_advance() && self.alarm_due_next() {
            Some(AlarmEvent { fired_at: (self.now + 1) as u64 })
        } else {
            None
        }
    }

    /// The state after one clock step: the clock moves one unit, a due tick
    /// advances the ticker's sequence, and a due one-shot fires, is spent,
    /// and leaves the scheduler awaiting a reset. A clock without headroom
    /// stands still.
    pub open spec fn advance_next(self) -> AlarmCycleScheduler {
        if !self.can_advance() {
            self
        } else {
            let now2 = (self.now + 1) as u64;
            let sup2 = if self.tick_due_next() {
                ReminderSupervisor {
                    current: Some(
                        Ticker {
                            next_seq: (self.sup.ticker().next_seq + 1) as u64,
                            ..self.sup.ticker()
                        },
                    ),
                }
            } else {
                self.sup
            };
            if self.alarm_due_next() {
                AlarmCycleScheduler {
                    now: now2,
                    sup: sup2,
                    state: SchedState::AwaitingReset,
                    alarm: None,
                    alarms: (self.alarms + 1) as u64,
                    last_alarm_at: now2,
                    ..self
                }
            } else {
                AlarmCycleScheduler { now: now2, sup: sup2, ..self }
            }
        }
    }

    /// The state after an operator reset. It is accepted only while the
    /// scheduler awaits one: the old ticker is stopped and drained, a fresh
    /// ticker and one-shot start from the original configured durations, and
    /// a new cycle begins at the present instant. A reset while the alarm is
    /// still pending is discarded and changes nothing.
    pub open spec fn reset_next(self) -> AlarmCycleScheduler {
        if self.state is AwaitingReset && self.cycle < u64::MAX {
            AlarmCycleScheduler {
                state: SchedState::Arming,
                sup: ReminderSupervisor {
                    current: Some(
                        Ticker {
                            interval: self.reminder_d,
                            started_at: self.now,
                            next_seq: 1,
                            cycle: (self.cycle + 1) as u64,
                        },
                    ),
                },
                alarm: Some(OneShotTimer { duration: self.alarm_d, armed_at: self.now }),
                cycle_start: self.now,
                cycle: (self.cycle + 1) as u64,
                resets: (self.resets + 1) as u64,
                ..self
            }
        } else {
            self
        }
    }
}

/// One input applied to a state.
pub open spec fn apply(s: AlarmCycleScheduler, c: Cmd) -> AlarmCycleScheduler {
    match c {
        Cmd::Advance => s.advance_next(),
        Cmd::Reset => s.reset_next(),
    }
}

/// A whole run: the inputs of `cs` applied in order.
pub open spec fn run(s: AlarmCycleScheduler, cs: Seq<Cmd>) -> AlarmCycleScheduler
    decreases cs.len(),
{
    if cs.len() == 0 {
        s
    } else {
        run(apply(s, cs[0]), cs.drop_first())
    }
}

/// How one clock unit moves Euclidean division: the quotient of `a + 1` by
/// `r` grows by one exactly when `r` divides `a + 1`.
proof fn lemma_step_div(a: int, r: int)
    requires
        a >= 0,
        r >= 1,
    ensures
        (a + 1) % r == 0 ==> (a + 1) / r == a / r + 1,
        (a + 1) % r != 0 ==> (a + 1) / r == a / r,
{
    lemma_fundamental_div_mod(a, r);
    lemma_mod_bound(a, r);
    let q = a / r;
    let m = a % r;
    if m + 1 == r {
        assert(a + 1 == (q + 1) * r + 0) by (nonlinear_arith)
            requires
                a == r * q + m,
                m + 1 == r,
        ;
        lemma_fundamental_div_mod_converse(a + 1, r, q + 1, 0);
    } else {
        assert(a + 1 == q * r + (m + 1)) by (nonlinear_arith)
            requires
                a == r * q + m,
        ;
        lemma_fundamental_div_mod_converse(a + 1, r, q, m + 1);
    }
}

/// Advancing the clock preserves well-formedness.
pub proof fn lemma_advance_wf(s: AlarmCycleScheduler)
    requires
        s.wf(),
    ensures
        s.advance_next().wf(),
{
    if s.can_advance() {
        let a = s.now - s.cycle_start;
        let r = s.reminder_d as int;
        lemma_step_div(a, r);
        lemma_div_nonincreasing(a, r);
        lemma_div_pos_is_pos(a, r);
    }
}

/// A reset preserves well-formedness.
pub proof fn lemma_reset_wf(s: AlarmCycleScheduler)
    requires
        s.wf(),
    ensures
        s.reset_next().wf(),
{
    if s.state is AwaitingReset && s.cycle < u64::MAX {
        lemma_div_of0(s.reminder_d as int);
    }
}

/// Every input preserves well-formedness.
pub proof fn lemma_apply_wf(s: AlarmCycleScheduler, c: Cmd)
    requires
        s.wf(),
    ensures
        apply(s, c).wf(),
{
    match c {
        Cmd::Advance => lemma_advance_wf(s),
        Cmd::Reset => lemma_reset_wf(s),
    }
}

impl AlarmCycleScheduler {
    /// Build a scheduler and start the first cycle: the reminder ticker and
    /// the one-shot alarm both begin at virtual time zero. A non-positive
    /// alarm or reminder duration is refused here, before any timer starts.
    pub fn new(alarm: TimeSpan, reminder: TimeSpan) -> (r: Result<
        AlarmCycleScheduler,
        StartupError,
    >)
        ensures
            r is Ok <==> alarm.secs >= 1 && reminder.secs >= 1,
            r matches Ok(s) ==> s.wf() && s.alarm_d == alarm.secs && s.reminder_d == reminder.secs
                && s.state is Arming && s.now == 0 && s.cycle_start == 0 && s.cycle == 1 && s.alarms
                == 0 && s.resets == 0 && s.sup.ticker().next_seq == 1,
            r matches Err(e) ==> e == StartupError::NonPositiveInterval,
    {
        if alarm.secs == 0 || reminder.secs == 0 {
            return Err(StartupError::NonPositiveInterval);
        }
        let mut sup = ReminderSupervisor::new();
        sup.begin(reminder.secs, 1, 0);
        let one = match OneShotTimer::start(alarm.secs, 0) {
            Ok(o) => o,
            Err(_) => {
                proof {
                    assert(false);
                }
                return Err(StartupError::NonPositiveInterval);
            },
        };
        let s = AlarmCycleScheduler {
            alarm_d: alarm.secs,
            reminder_d: reminder.secs,
            state: SchedState::Arming,
            sup,
            alarm: Some(one),
            now: 0,
            cycle_start: 0,
            cycle: 1,
            alarms: 0,
            resets: 0,
            last_alarm_at: 0,
        };
        proof {
            lemma_div_of0(reminder.secs as int);
        }
        Ok(s)
    }

    /// Advance the virtual clock one unit, emitting the tick and the alarm
    /// that fall due, in that order. A tick carries the owned ticker's next
    /// sequence number and the current cycle's tag; an alarm fires at most
    /// once per cycle and, from the second alarm on, at least one full alarm
    /// duration after the previous one.
    pub fn advance_one(&mut self) -> (out: (Option<TickEvent>, Option<AlarmEvent>))
        requires
            old(self).wf(),
            old(self).can_advance(),
        ensures
            final(self).wf(),
            *final(self) == old(self).advance_next(),
            out.0 == old(self).advance_tick(),
            out.1 == old(self).advance_alarm(),
            final(self).now == old(self).now + 1,
            final(self).cycle == old(self).cycle,
            final(self).resets == old(self).resets,
            out.0 matches Some(t) ==> t.cycle == old(self).cycle
                && t.sequence == old(self).sup.ticker().next_seq
                && t.startstamp == old(self).now + 1,
            out.1 matches Some(a) ==> a.fired_at == old(self).now + 1
                && final(self).state is AwaitingReset
                && final(self).alarms == old(self).alarms + 1,
            out.1 is None ==> final(self).state == old(self).state
                && final(self).alarms == old(self).alarms,
            out.1 matches Some(a) ==> (old(self).alarms >= 1 ==> a.fired_at
                >= old(self).last_alarm_at + old(self).alarm_d),
    {
        proof {
            lemma_div_nonincreasing(
                old(self).now - old(self).cycle_start,
                old(self).reminder_d as int,
            );
        }
        let now2: u64 = self.now + 1;
        let tick: Option<TickEvent> = if self.sup.due(now2) {
            Some(self.sup.emit(now2))
        } else {
            None
        };
        let alarm: Option<AlarmEvent> = match self.alarm {
            Some(o) => {
                if o.due(now2) {
                    Some(o.fire(now2))
                } else {
                    None
                }
            },
            None => None,
        };
        self.now = now2;
        if alarm.is_some() {
            self.alarm = None;
            self.state = SchedState::AwaitingReset;
            self.alarms = self.alarms + 1;
            self.last_alarm_at = now2;
        }
        proof {
            lemma_advance_wf(*old(self));
            assert(*self == old(self).advance_next());
        }
        (tick, alarm)
    }

    /// Take one operator reset. It is accepted exactly while the scheduler
    /// awaits one; then the old ticker is stopped and drained before a fresh
    /// ticker and one-shot start, from the original configured durations,
    /// and a new cycle begins now. A reset while the alarm is still pending
    /// is discarded: the state does not change at all.
    pub fn send_reset(&mut self) -> (accepted: bool)
        requires
            old(self).wf(),
            old(self).cycle < u64::MAX,
        ensures
            final(self).wf(),
            *final(self) == old(self).reset_next(),
            accepted <==> old(self).state is AwaitingReset,
            !accepted ==> *final(self) == *old(self),
            accepted ==> final(self).cycle == old(self).cycle + 1
                && final(self).cycle_start == old(self).now
                && final(self).state is Arming
                && final(self).sup.ticker().next_seq == 1
                && final(self).resets == old(self).resets + 1
                && final(self).alarm_d == old(self).alarm_d
                && final(self).reminder_d == old(self).reminder_d
                && final(self).alarms == old(self).alarms,
    {
        match self.state {
            SchedState::Arming => false,
            SchedState::AwaitingReset => {
                let c2: u64 = self.cycle + 1;
                self.sup.end();
                self.sup.begin(self.reminder_d, c2, self.now);
                let one = match OneShotTimer::start(self.alarm_d, self.now) {
                    Ok(o) => o,
                    Err(_) => {
                        proof {
                            assert(false);
                        }
                        return false;
                    },
                };
                self.alarm = Some(one);
                self.state = SchedState::Arming;
                self.cycle_start = self.now;
                self.cycle = c2;
                self.resets = self.resets + 1;
                proof {
                    lemma_reset_wf(*old(self));
                    assert(*self == old(self).reset_next());
                }
                true
            },
        }
    }
}

/// Single alarm per cycle: in every state a run can reach, the number of
/// alarms that have fired exceeds the number of accepted resets exactly
/// while a fired alarm awaits its reset. So over a run in which N resets are
/// accepted and the last cycle's alarm has fired, exactly N + 1 alarms have
/// been observed.
pub proof fn law_single_alarm_per_cycle(s: AlarmCycleScheduler, cs: Seq<Cmd>)
    requires
        s.wf(),
    ensures
        run(s, cs).wf(),
        run(s, cs).alarms == run(s, cs).resets + (if run(s, cs).state is AwaitingReset {
            1int
        } else {
            0int
        }),
    decreases cs.len(),
{
    if cs.len() > 0 {
        lemma_apply_wf(s, cs[0]);
        law_single_alarm_per_cycle(apply(s, cs[0]), cs.drop_first());
    }
}

/// Alarm separation, the other half of the single-alarm property: from the
/// second alarm on, an alarm fires at least one full alarm duration after
/// the previous one, since the cycle it ends cannot have started before the
/// previous alarm fired.
pub proof fn law_alarm_separation(s: AlarmCycleScheduler)
    requires
        s.wf(),
        s.alarms >= 1,
        s.advance_alarm() is Some,
    ensures
        s.advance_alarm()->Some_0.fired_at >= s.last_alarm_at + s.alarm_d,
{
}

/// The cycle number never goes down, whatever inputs a run takes.
proof fn lemma_cycle_monotone(s: AlarmCycleScheduler, cs: Seq<Cmd>)
    ensures
        run(s, cs).cycle >= s.cycle,
    decreases cs.len(),
{
    if cs.len() > 0 {
        lemma_cycle_monotone(apply(s, cs[0]), cs.drop_first());
    }
}

/// No orphan ticks: every tick is tagged with the cycle of the ticker that
/// produced it, and once a reset has been accepted, every state any run can
/// reach carries a strictly larger cycle number than the cycle that ended.
/// So no tick bearing the previous ticker's cycle is ever emitted again.
pub proof fn law_no_orphan_ticks(s: AlarmCycleScheduler, cs: Seq<Cmd>)
    requires
        s.state is AwaitingReset,
        s.cycle < u64::MAX,
    ensures
        run(s.reset_next(), cs).advance_tick() matches Some(t) ==> t.cycle > s.cycle,
{
    lemma_cycle_monotone(s.reset_next(), cs);
}

/// While a run takes only clock steps and no tick falls due, the owned
/// ticker does not change.
proof fn lemma_ticker_stays(s: AlarmCycleScheduler, cs: Seq<Cmd>)
    requires
        forall|j: int| 0 <= j < cs.len() ==> cs[j] is Advance,
        forall|j: int| 0 <= j < cs.len() ==> run(s, #[trigger] cs.take(j)).advance_tick() is None,
    ensures
        run(s, cs).sup == s.sup,
    decreases cs.len(),
{
    if cs.len() > 0 {
        assert(cs.take(0) =~= Seq::<Cmd>::empty());
        assert(run(s, cs.take(0)).advance_tick() is None);
        let s1 = apply(s, cs[0]);
        assert(s1.sup == s.sup);
        let cs1 = cs.drop_first();
        assert forall|j: int| 0 <= j < cs1.len() implies run(
            s1,
            #[trigger] cs1.take(j),
        ).advance_tick() is None by {
            assert(cs.take(j + 1).drop_first() =~= cs1.take(j));
            assert(run(s, cs.take(j + 1)).advance_tick() is None);
            assert(run(s, cs.take(j + 1)) == run(s1, cs1.take(j)));
        }
        lemma_ticker_stays(s1, cs1);
    }
}

/// Sequence reset: the first tick of every new cycle has sequence 1. After
/// an accepted reset, as long as the clock alone advances and no tick has
/// yet fallen due, the fresh ticker's counter stays at 1, so the first tick
/// the new cycle emits carries sequence 1.
pub proof fn law_sequence_reset(s: AlarmCycleScheduler, cs: Seq<Cmd>)
    requires
        s.state is AwaitingReset,
        s.cycle < u64::MAX,
        forall|j: int| 0 <= j < cs.len() ==> cs[j] is Advance,
        forall|j: int|
            0 <= j < cs.len() ==> run(s.reset_next(), #[trigger] cs.take(j)).advance_tick() is None,
    ensures
        run(s.reset_next(), cs).advance_tick() matches Some(t) ==> t.sequence == 1,
{
    lemma_ticker_stays(s.reset_next(), cs);
}

/// Reset during Arming is a no-op: while the alarm is still pending, an
/// operator reset neither stops nor restarts the reminder and does not
/// advance the cycle — the state is left exactly as it was.
pub proof fn law_reset_while_arming(s: AlarmCycleScheduler)
    requires
        s.state is Arming,
    ensures
        s.reset_next() == s,
{
}

} // verus!
