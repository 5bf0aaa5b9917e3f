use alarm_cycle::dispatcher::{line_is_reset, on_line, EventDispatcher, EventSource};

fn bytes(s: &str) -> Vec<u8> {
    s.as_bytes().to_vec()
}

#[test]
fn plain_reset_token_is_recognised() {
    assert!(line_is_reset(&bytes("r")));
    assert!(line_is_reset(&bytes("r\n")));
    assert!(line_is_reset(&bytes("  r  ")));
    assert!(line_is_reset(&bytes("\t r \r\n")));
}

#[test]
fn other_lines_are_ignored() {
    assert!(!line_is_reset(&bytes("")));
    assert!(!line_is_reset(&bytes("   \n")));
    assert!(!line_is_reset(&bytes("rr")));
    assert!(!line_is_reset(&bytes("r r")));
    assert!(!line_is_reset(&bytes("reset")));
    assert!(!line_is_reset(&bytes("x")));
    assert!(!line_is_reset(&bytes("R")));
}

#[test]
fn on_line_forwards_exactly_the_reset_token() {
    assert!(on_line(&bytes(" r\n")).is_some());
    assert!(on_line(&bytes("quit")).is_none());
}

#[test]
fn pick_serves_ready_sources_in_rotation() {
    let mut d = EventDispatcher::new();
    // Both timer events pending, input quiet: reminder first, then alarm.
    assert_eq!(d.pick(true, true, false), Some(EventSource::Reminder));
    assert_eq!(d.pick(false, true, false), Some(EventSource::Alarm));
    assert_eq!(d.pick(false, false, false), None);
}

#[test]
fn pick_does_not_starve_either_timer_event() {
    // Whatever the cursor starts at and with input permanently ready, both
    // pending timer events are delivered within three picks.
    for start in 0..3u8 {
        let mut d = EventDispatcher::new();
        // Move the cursor to the desired start: serving the reminder leaves
        // the cursor at 1, serving the alarm leaves it at 2.
        if start == 1 {
            d.pick(true, false, false);
        } else if start == 2 {
            d.pick(false, true, false);
        }
        let mut reminder_ready = true;
        let mut alarm_ready = true;
        let mut got_reminder = false;
        let mut got_alarm = false;
        for _ in 0..3 {
            match d.pick(reminder_ready, alarm_ready, true) {
                Some(EventSource::Reminder) => {
                    reminder_ready = false;
                    got_reminder = true;
                }
                Some(EventSource::Alarm) => {
                    alarm_ready = false;
                    got_alarm = true;
                }
                _ => {}
            }
        }
        assert!(got_reminder && got_alarm);
    }
}

#[test]
fn pick_only_returns_ready_sources() {
    let mut d = EventDispatcher::new();
    assert_eq!(d.pick(false, false, true), Some(EventSource::Input));
    assert_eq!(d.pick(false, true, false), Some(EventSource::Alarm));
    assert_eq!(d.pick(true, false, false), Some(EventSource::Reminder));
}
