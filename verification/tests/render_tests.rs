use alarm_cycle::render::{
    alarm_line, banner_lines, dec_string, duration_to_display, now_alarm_line, now_tick_line,
    pad2_string, tick_line,
};
use alarm_cycle::TimeSpan;

#[test]
fn dec_string_zero() {
    assert_eq!(dec_string(0), "0");
}

#[test]
fn dec_string_single_digit() {
    assert_eq!(dec_string(7), "7");
}

#[test]
fn dec_string_multi_digit() {
    assert_eq!(dec_string(10), "10");
    assert_eq!(dec_string(123456789), "123456789");
    assert_eq!(dec_string(u64::MAX), "18446744073709551615");
}

#[test]
fn pad2_pads_single_digits_only() {
    assert_eq!(pad2_string(0), " 0");
    assert_eq!(pad2_string(9), " 9");
    assert_eq!(pad2_string(10), "10");
    assert_eq!(pad2_string(59), "59");
}

#[test]
fn duration_display_zero_is_empty() {
    assert_eq!(duration_to_display(TimeSpan::from_secs(0)), "");
}

#[test]
fn duration_display_seconds_only() {
    assert_eq!(duration_to_display(TimeSpan::from_secs(5)), " 5 seconds   ");
    assert_eq!(duration_to_display(TimeSpan::from_secs(45)), "45 seconds   ");
}

#[test]
fn duration_display_minutes_and_seconds() {
    assert_eq!(
        duration_to_display(TimeSpan::from_secs(60)),
        " 1 minutes    0 seconds   "
    );
    assert_eq!(
        duration_to_display(TimeSpan::from_secs(13 * 60 + 40)),
        "13 minutes   40 seconds   "
    );
}

#[test]
fn duration_display_hours_minutes_seconds() {
    assert_eq!(
        duration_to_display(TimeSpan::from_secs(3600)),
        "1 hours    0 minutes    0 seconds   "
    );
    assert_eq!(
        duration_to_display(TimeSpan::from_secs(3 * 3600 + 2 * 60 + 1)),
        "3 hours    2 minutes    1 seconds   "
    );
}

#[test]
fn tick_line_formats_stamp_and_sequence() {
    assert_eq!(tick_line("2024-05-06 07:08:09", 3), "2024-05-06 07:08:09 [3]");
    assert_eq!(tick_line("x", 12), "x [12]");
}

#[test]
fn alarm_line_matches_ansi_term() {
    let line = alarm_line("2024-05-06 07:08:09");
    assert_eq!(line, "\u{1b}[1;34m2024-05-06 07:08:09 [RUN ALARAM]\u{1b}[0m");
    let reference = ansi_term::Color::Blue
        .bold()
        .paint("2024-05-06 07:08:09 [RUN ALARAM]")
        .to_string();
    assert_eq!(line, reference);
}

#[test]
fn banner_lines_have_expected_shape() {
    let lines = banner_lines(
        "/tmp/a.mp3",
        TimeSpan::from_secs(13 * 60 + 40),
        TimeSpan::from_secs(45),
    );
    assert_eq!(lines.len(), 4);
    assert_eq!(
        lines[0],
        "\n\u{1b}[1;36m=========== START ALARM ===========\u{1b}[0m\n"
    );
    let reference = format!(
        "\n{}\n",
        ansi_term::Color::Cyan
            .bold()
            .paint("=========== START ALARM ===========")
    );
    assert_eq!(lines[0], reference);
    assert_eq!(lines[1], "File     : /tmp/a.mp3\n");
    assert_eq!(lines[2], "Alarm    : 13 minutes   40 seconds   ");
    assert_eq!(lines[3], "Reminder : 45 seconds   \n");
}

#[test]
fn now_tick_line_stamps_and_numbers() {
    let line = now_tick_line(5);
    assert!(line.ends_with(" [5]"));
    assert!(line.len() > " [5]".len());
}

#[test]
fn now_alarm_line_is_painted_and_marked() {
    let line = now_alarm_line();
    assert!(line.starts_with("\u{1b}[1;34m"));
    assert!(line.ends_with(" [RUN ALARAM]\u{1b}[0m"));
}
