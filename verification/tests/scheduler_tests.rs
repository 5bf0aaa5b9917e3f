use alarm_cycle::oneshot::OneShotTimer;
use alarm_cycle::scheduler::{AlarmCycleScheduler, SchedState};
use alarm_cycle::supervisor::ReminderSupervisor;
use alarm_cycle::ticker::Ticker;
use alarm_cycle::{StartupError, TimeSpan};

fn sched(alarm: u64, reminder: u64) -> AlarmCycleScheduler {
    AlarmCycleScheduler::new(TimeSpan::from_secs(alarm), TimeSpan::from_secs(reminder))
        .expect("positive durations start")
}

#[test]
fn new_rejects_non_positive_durations() {
    assert!(matches!(
        AlarmCycleScheduler::new(TimeSpan::from_secs(0), TimeSpan::from_secs(1)),
        Err(StartupError::NonPositiveInterval)
    ));
    assert!(matches!(
        AlarmCycleScheduler::new(TimeSpan::from_secs(1), TimeSpan::from_secs(0)),
        Err(StartupError::NonPositiveInterval)
    ));
    assert!(AlarmCycleScheduler::new(TimeSpan::from_secs(1), TimeSpan::from_secs(1)).is_ok());
}

#[test]
fn ticker_start_rejects_zero_interval() {
    assert!(matches!(
        Ticker::start(0, 1, 0),
        Err(StartupError::NonPositiveInterval)
    ));
    let t = Ticker::start(2, 1, 0).unwrap();
    assert_eq!(t.next_seq, 1);
    assert_eq!(t.interval, 2);
}

#[test]
fn ticker_sequence_increments_from_one() {
    let mut t = Ticker::start(1, 1, 0).unwrap();
    let e1 = t.emit(1);
    let e2 = t.emit(2);
    assert_eq!(e1.sequence, 1);
    assert_eq!(e2.sequence, 2);
    assert_eq!(e1.startstamp, 1);
    assert_eq!(e1.cycle, 1);
}

#[test]
fn oneshot_start_rejects_zero_duration() {
    assert!(matches!(
        OneShotTimer::start(0, 0),
        Err(StartupError::NonPositiveInterval)
    ));
}

#[test]
fn oneshot_fires_after_full_duration() {
    let t = OneShotTimer::start(3, 10).unwrap();
    assert!(!t.due(10));
    assert!(!t.due(12));
    assert!(t.due(13));
    let e = t.fire(13);
    assert_eq!(e.fired_at, 13);
}

#[test]
fn supervisor_owns_at_most_one_ticker() {
    let mut sup = ReminderSupervisor::new();
    assert!(sup.current.is_none());
    sup.begin(1, 1, 0);
    assert!(sup.current.is_some());
    sup.end();
    assert!(sup.current.is_none());
    sup.begin(1, 2, 5);
    assert_eq!(sup.current.unwrap().cycle, 2);
    assert_eq!(sup.current.unwrap().next_seq, 1);
}

#[test]
fn end_to_end_cycle_scenario() {
    // alarmDuration = 3 tick-equivalents, reminderDuration = 1, virtual clock.
    let mut s = sched(3, 1);

    // Advance by 1, 1, 1: reminders 1, 2, 3, and the alarm fires at t = 3.
    let (t1, a1) = s.advance_one();
    assert_eq!(t1.unwrap().sequence, 1);
    assert!(a1.is_none());
    let (t2, a2) = s.advance_one();
    assert_eq!(t2.unwrap().sequence, 2);
    assert!(a2.is_none());
    let (t3, a3) = s.advance_one();
    assert_eq!(t3.unwrap().sequence, 3);
    let fired = a3.unwrap();
    assert_eq!(fired.fired_at, 3);
    assert_eq!(s.state, SchedState::AwaitingReset);
    assert_eq!(s.alarms, 1);

    // One more unit without a reset: a 4th reminder of the same cycle, no alarm.
    let (t4, a4) = s.advance_one();
    assert_eq!(t4.unwrap().sequence, 4);
    assert_eq!(t4.unwrap().cycle, 1);
    assert!(a4.is_none());

    // Inject the reset at t = 4: a new cycle starts.
    assert!(s.send_reset());
    assert_eq!(s.state, SchedState::Arming);
    assert_eq!(s.cycle, 2);

    // One unit on: the new cycle's first reminder has sequence 1 again.
    let (t5, a5) = s.advance_one();
    assert_eq!(t5.unwrap().sequence, 1);
    assert_eq!(t5.unwrap().cycle, 2);
    assert!(a5.is_none());

    // No second alarm until a full alarm duration after the reset.
    let (_t6, a6) = s.advance_one();
    assert!(a6.is_none());
    let (_t7, a7) = s.advance_one();
    assert_eq!(a7.unwrap().fired_at, 7);
    assert_eq!(s.alarms, 2);
}

#[test]
fn n_resets_observe_n_plus_one_alarms() {
    let mut s = sched(3, 1);
    let mut fired_times: Vec<u64> = Vec::new();
    for _ in 0..4 {
        // Run until this cycle's alarm fires, then reset (post-fire).
        loop {
            let (_, alarm) = s.advance_one();
            if let Some(a) = alarm {
                fired_times.push(a.fired_at);
                break;
            }
        }
        assert!(s.send_reset());
    }
    // Three resets were sent after the first three alarms; the fourth cycle
    // fired too: 3 resets in between 4 alarms, each a full alarm duration apart.
    assert_eq!(s.resets, 4);
    assert_eq!(s.alarms, 4);
    assert_eq!(fired_times.len(), 4);
    for w in fired_times.windows(2) {
        assert!(w[1] >= w[0] + 3);
    }
}

#[test]
fn reset_during_arming_is_a_no_op() {
    let mut s = sched(3, 1);
    let (_, a) = s.advance_one();
    assert!(a.is_none());
    let before = s;
    assert!(!s.send_reset());
    assert_eq!(s, before);
    assert_eq!(s.cycle, 1);
    // The pending alarm still fires on the original schedule.
    s.advance_one();
    let (_, a3) = s.advance_one();
    assert_eq!(a3.unwrap().fired_at, 3);
}

#[test]
fn no_tick_carries_an_ended_cycle() {
    let mut s = sched(2, 1);
    s.advance_one();
    let (_, a) = s.advance_one();
    assert!(a.is_some());
    assert!(s.send_reset());
    // Every tick from now on is tagged with the new cycle.
    for _ in 0..5 {
        let (tick, _) = s.advance_one();
        if let Some(t) = tick {
            assert!(t.cycle > 1);
            assert_eq!(t.cycle, s.cycle);
        }
        if s.state == SchedState::AwaitingReset {
            s.send_reset();
        }
    }
}

#[test]
fn reminder_keeps_running_while_awaiting_reset() {
    let mut s = sched(2, 2);
    // Reminder ticks at t = 2 (sequence 1); the alarm also fires at t = 2.
    s.advance_one();
    let (t2, a2) = s.advance_one();
    assert_eq!(t2.unwrap().sequence, 1);
    assert!(a2.is_some());
    // Still no reset: the reminder goes on ticking in AwaitingReset.
    s.advance_one();
    let (t4, a4) = s.advance_one();
    assert_eq!(t4.unwrap().sequence, 2);
    assert!(a4.is_none());
}
