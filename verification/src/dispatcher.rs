//! The event dispatcher's decision logic: classifying operator input lines,
//! and the fair fan-in choice among the three event sources that the
//! dispatch loop multiplexes.

use vstd::prelude::*;

verus! {

/// The operator's reset signal: a unit command with no payload.
#[derive(Clone, Copy, Debug, PartialEq, Eq, Structural)]
pub struct ResetCommand;

/// ASCII whitespace, as trimming treats it: space, tab, line feed, vertical
/// tab, form feed, carriage return.
pub open spec fn is_ws(b: u8) -> bool {
    b == 32 || b == 9 || b == 10 || b == 11 || b == 12 || b == 13
}

/// A line commands a reset when, after trimming whitespace, exactly the
/// letter 'r' remains: one position holds 'r' and every other position
/// holds whitespace.
pub open spec fn is_reset_line(s: Seq<u8>) -> bool {
    exists|i: int|
        0 <= i < s.len() && s[i] == 114u8 && (forall|j: int|
            0 <= j < s.len() && j != i ==> is_ws(s[j]))
}

fn byte_is_ws(b: u8) -> (r: bool)
    ensures
        r == is_ws(b),
{
    b == 32 || b == 9 || b == 10 || b == 11 || b == 12 || b == 13
}

/// Decide whether an operator's line, taken as raw bytes, is the reset
/// token: the letter 'r' alone up to surrounding whitespace.
pub fn line_is_reset(line: &Vec<u8>) -> (b: bool)
    ensures
        b == is_reset_line(line@),
{
    let n: usize = line.len();
    let mut k: usize = 0;
    let mut seen: bool = false;
    let ghost mut ri: int = 0;
    let mut ok: bool = true;
    while k < n
        invariant
            0 <= k <= n,
            n == line@.len(),
            ok && seen ==> 0 <= ri < k && line@[ri] == 114u8 && (forall|j: int|
                0 <= j < k && j != ri ==> is_ws(line@[j])),
            ok && !seen ==> (forall|j: int| 0 <= j < k ==> is_ws(line@[j])),
            !ok ==> !is_reset_line(line@),
        decreases n - k,
    {
        let c = line[k];
        if byte_is_ws(c) {
        } else if c == 114u8 && !seen {
            seen = true;
            proof {
                ri = k as int;
            }
        } else {
            proof {
                if ok && seen {
                    assert forall|i: int|
                        0 <= i < line@.len() implies !(line@[i] == 114u8 && (forall|j: int|
                        0 <= j < line@.len() && j != i ==> is_ws(line@[j]))) by {
                        if i != k {
                            assert(!is_ws(line@[k as int]));
                        } else {
                            assert(!is_ws(line@[ri]));
                        }
                    }
                } else if ok {
                    assert forall|i: int|
                        0 <= i < line@.len() implies !(line@[i] == 114u8 && (forall|j: int|
                        0 <= j < line@.len() && j != i ==> is_ws(line@[j]))) by {
                        if i != k {
                            assert(!is_ws(line@[k as int]));
                        }
                    }
                }
            }
            ok = false;
        }
        k = k + 1;
    }
    if ok && seen {
        proof {
            assert(is_reset_line(line@));
        }
        true
    } else {
        proof {
            if ok && !seen {
                assert forall|i: int| 0 <= i < line@.len() implies line@[i] != 114u8 by {
                    assert(is_ws(line@[i]));
                }
            }
        }
        false
    }
}

/// What the dispatcher does with one operator line: exactly the reset token
/// becomes a `ResetCommand`; every other line is ignored by the scheduler
/// (the embedder may still refresh its display).
pub fn on_line(line: &Vec<u8>) -> (c: Option<ResetCommand>)
    ensures
        c is Some <==> is_reset_line(line@),
{
    if line_is_reset(line) {
        Some(ResetCommand)
    } else {
        None
    }
}

/// The three independently produced event sources the dispatch loop merges.
#[derive(Clone, Copy, Debug, PartialEq, Eq, Structural)]
pub enum EventSource {
    Reminder,
    Alarm,
    Input,
}

/// The fixed scan position of each source.
pub open spec fn source_index(s: EventSource) -> int {
    match s {
        EventSource::Reminder => 0,
        EventSource::Alarm => 1,
        EventSource::Input => 2,
    }
}

/// The source a round-robin scan picks: the first ready source at or after
/// the cursor, wrapping around; none when nothing is ready.
pub open spec fn pick_spec(turn: int, reminder_ready: bool, alarm_ready: bool, input_ready: bool) -> Option<
    EventSource,
> {
    if turn == 0 {
        if reminder_ready {
            Some(EventSource::Reminder)
        } else if alarm_ready {
            Some(EventSource::Alarm)
        } else if input_ready {
            Some(EventSource::Input)
        } else {
            None
        }
    } else if turn == 1 {
        if alarm_ready {
            Some(EventSource::Alarm)
        } else if input_ready {
            Some(EventSource::Input)
        } else if reminder_ready {
            Some(EventSource::Reminder)
        } else {
            None
        }
    } else {
        if input_ready {
            Some(EventSource::Input)
        } else if reminder_ready {
            Some(EventSource::Reminder)
        } else if alarm_ready {
            Some(EventSource::Alarm)
        } else {
            None
        }
    }
}

/// The dispatch loop's fan-in state: a rotating cursor gives each source
/// first claim in turn, so among simultaneously ready sources none is
/// starved and any one may be chosen — order-agnostic, with no fixed
/// priority.
#[derive(Clone, Copy, Debug, PartialEq, Eq, Structural)]
pub struct EventDispatcher {
    pub turn: u8,
}

impl EventDispatcher {
    pub open spec fn wf(self) -> bool {
        self.turn < 3
    }

    pub fn new() -> (d: EventDispatcher)
        ensures
            d.wf(),
            d.turn == 0,
    {
        EventDispatcher { turn: 0 }
    }

    /// Choose the next source to serve among those that are ready, and move
    /// the cursor just past it.
    pub fn pick(&mut self, reminder_ready: bool, alarm_ready: bool, input_ready: bool) -> (choice:
        Option<EventSource>)
        requires
            old(self).wf(),
        ensures
            final(self).wf(),
            choice == pick_spec(old(self).turn as int, reminder_ready, alarm_ready, input_ready),
            choice is None <==> !reminder_ready && !alarm_ready && !input_ready,
            choice matches Some(s) ==> (s is Reminder ==> reminder_ready) && (s is Alarm
                ==> alarm_ready) && (s is Input ==> input_ready),
            choice matches Some(s) ==> final(self).turn == (source_index(s) + 1) % 3,
            choice is None ==> final(self).turn == old(self).turn,
    {
        let choice: Option<EventSource> = if self.turn == 0 {
            if reminder_ready {
                Some(EventSource::Reminder)
            } else if alarm_ready {
                Some(EventSource::Alarm)
            } else if input_ready {
                Some(EventSource::Input)
            } else {
                None
            }
        } else if self.turn == 1 {
            if alarm_ready {
                Some(EventSource::Alarm)
            } else if input_ready {
                Some(EventSource::Input)
            } else if reminder_ready {
                Some(EventSource::Reminder)
            } else {
                None
            }
        } else {
            if input_ready {
                Some(EventSource::Input)
            } else if reminder_ready {
                Some(EventSource::Reminder)
            } else if alarm_ready {
                Some(EventSource::Alarm)
            } else {
                None
            }
        };
        match choice {
            Some(EventSource::Reminder) => {
                self.turn = 1;
            },
            Some(EventSource::Alarm) => {
                self.turn = 2;
            },
            Some(EventSource::Input) => {
                self.turn = 0;
            },
            None => {},
        }
        choice
    }
}

/// Three successive picks from a state where both a reminder event and an
/// alarm event are pending: each pick consumes the event it delivered,
/// while the input source is free to stay ready the whole time.
pub open spec fn three_picks(turn: int, input_ready: bool) -> Seq<Option<EventSource>> {
    let c1 = pick_spec(turn, true, true, input_ready);
    let turn2 = if c1 is Some {
        (source_index(c1->Some_0) + 1) % 3
    } else {
        turn
    };
    let r2 = c1 != Some(EventSource::Reminder);
    let a2 = c1 != Some(EventSource::Alarm);
    let c2 = pick_spec(turn2, r2, a2, input_ready);
    let turn3 = if c2 is Some {
        (source_index(c2->Some_0) + 1) % 3
    } else {
        turn2
    };
    let r3 = r2 && c2 != Some(EventSource::Reminder);
    let a3 = a2 && c2 != Some(EventSource::Alarm);
    let c3 = pick_spec(turn3, r3, a3, input_ready);
    seq![c1, c2, c3]
}

/// Fairness: when a reminder event and an alarm event are simultaneously
/// pending, both are delivered within the next three picks, whatever the
/// cursor stands at and however the input source behaves — neither timer
/// event can be starved.
pub proof fn law_fairness(turn: int, input_ready: bool)
    requires
        0 <= turn < 3,
    ensures
        three_picks(turn, input_ready).contains(Some(EventSource::Reminder)),
        three_picks(turn, input_ready).contains(Some(EventSource::Alarm)),
{
    let picks = three_picks(turn, input_ready);
    if turn == 0 {
        assert(picks[0] == Some(EventSource::Reminder));
        assert(picks[1] == Some(EventSource::Alarm));
    } else if turn == 1 {
        assert(picks[0] == Some(EventSource::Alarm));
        if input_ready {
            assert(picks[1] == Some(EventSource::Input));
            assert(picks[2] == Some(EventSource::Reminder));
        } else {
            assert(picks[1] == Some(EventSource::Reminder));
        }
    } else {
        if input_ready {
            assert(picks[0] == Some(EventSource::Input));
            assert(picks[1] == Some(EventSource::Reminder));
            assert(picks[2] == Some(EventSource::Alarm));
        } else {
            assert(picks[0] == Some(EventSource::Reminder));
            assert(picks[1] == Some(EventSource::Alarm));
        }
    }
}

} // verus!
