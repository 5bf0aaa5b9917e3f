//! Rendering of events and of the start-of-cycle banner: plain strings,
//! decimal numerals, and the colour escapes that the terminal front end
//! prints verbatim.

use vstd::prelude::*;
use vstd::string::*;

verus! {

use crate::TimeSpan;

/// The decimal digit character for `d` (for `d < 10`; larger values fall to '9').
pub open spec fn digit_char(d: nat) -> char {
    if d == 0 {
        '0'
    } else if d == 1 {
        '1'
    } else if d == 2 {
        '2'
    } else if d == 3 {
        '3'
    } else if d == 4 {
        '4'
    } else if d == 5 {
        '5'
    } else if d == 6 {
        '6'
    } else if d == 7 {
        '7'
    } else if d == 8 {
        '8'
    } else {
        '9'
    }
}

/// The decimal numeral of `n`, most significant digit first, without leading
/// zeros (a single '0' for zero).
pub open spec fn dec_str(n: nat) -> Seq<char>
    decreases n,
{
    if n < 10 {
        seq![digit_char(n)]
    } else {
        dec_str(n / 10) + seq![digit_char(n % 10)]
    }
}

/// The numeral of `n` padded on the left with one space to a width of at
/// least two characters.
pub open spec fn pad2_str(n: nat) -> Seq<char> {
    if n < 10 {
        seq![' '] + dec_str(n)
    } else {
        dec_str(n)
    }
}

fn digit_literal(d: u64) -> (c: &'static str)
    requires
        d < 10,
    ensures
        c@ == seq![digit_char(d as nat)],
{
    proof {
        reveal_strlit("0");
        reveal_strlit("1");
        reveal_strlit("2");
        reveal_strlit("3");
        reveal_strlit("4");
        reveal_strlit("5");
        reveal_strlit("6");
        reveal_strlit("7");
        reveal_strlit("8");
        reveal_strlit("9");
    }
    let c: &'static str = if d == 0 {
        "0"
    } else if d == 1 {
        "1"
    } else if d == 2 {
        "2"
    } else if d == 3 {
        "3"
    } else if d == 4 {
        "4"
    } else if d == 5 {
        "5"
    } else if d == 6 {
        "6"
    } else if d == 7 {
        "7"
    } else if d == 8 {
        "8"
    } else {
        "9"
    };
    proof {
        assert(c@ =~= seq![digit_char(d as nat)]);
    }
    c
}

/// The decimal numeral of `n` as a string.
pub fn dec_string(n: u64) -> (s: String)
    ensures
        s@ == dec_str(n as nat),
    decreases n,
{
    if n < 10 {
        let mut s = String::new();
        s.append(digit_literal(n));
        proof {
            assert(s@ =~= dec_str(n as nat));
        }
        s
    } else {
        let mut s = dec_string(n / 10);
        s.append(digit_literal(n % 10));
        proof {
            assert(s@ =~= dec_str(n as nat));
        }
        s
    }
}

/// The numeral of `n`, space-padded to at least two characters.
pub fn pad2_string(n: u64) -> (s: String)
    ensures
        s@ == pad2_str(n as nat),
{
    if n < 10 {
        let mut s = String::from_str(" ");
        let d = dec_string(n);
        s.append(d.as_str());
        proof {
            reveal_strlit(" ");
            assert(s@ =~= pad2_str(n as nat));
        }
        s
    } else {
        dec_string(n)
    }
}

/// What a span of `secs` seconds displays as: hours, minutes and seconds in
/// turn, each unit shown only once it or a larger unit is non-zero, minutes
/// and seconds padded to two characters.
pub open spec fn duration_display(secs: nat) -> Seq<char> {
    let h = secs / 3600;
    let m = (secs % 3600) / 60;
    let s = secs % 60;
    (if h > 0 {
        dec_str(h) + " hours   "@
    } else {
        Seq::<char>::empty()
    }) + (if m > 0 || h > 0 {
        pad2_str(m) + " minutes   "@
    } else {
        Seq::<char>::empty()
    }) + (if s > 0 || m > 0 || h > 0 {
        pad2_str(s) + " seconds   "@
    } else {
        Seq::<char>::empty()
    })
}

/// Render a time span for the banner, hours first; an all-zero span renders
/// as the empty string.
pub fn duration_to_display(d: TimeSpan) -> (r: String)
    ensures
        r@ == duration_display(d.secs as nat),
{
    let secs: u64 = d.secs;
    let h: u64 = secs / 3600;
    let m: u64 = (secs % 3600) / 60;
    let s: u64 = secs % 60;
    let mut res = String::new();
    if h > 0 {
        let hs = dec_string(h);
        res.append(hs.as_str());
        res.append(" hours   ");
    }
    if m > 0 || h > 0 {
        let ms = pad2_string(m);
        res.append(ms.as_str());
        res.append(" minutes   ");
    }
    if s > 0 || m > 0 || h > 0 {
        let ss = pad2_string(s);
        res.append(ss.as_str());
        res.append(" seconds   ");
    }
    proof {
        assert(res@ =~= duration_display(d.secs as nat));
    }
    res
}

/// One reminder line: the wall-clock stamp, then the tick's sequence number
/// in brackets.
pub fn tick_line(stamp: &str, seq_no: u64) -> (r: String)
    ensures
        r@ == stamp@ + " ["@ + dec_str(seq_no as nat) + "]"@,
{
    let mut r = String::from_str(stamp);
    r.append(" [");
    let d = dec_string(seq_no);
    r.append(d.as_str());
    r.append("]");
    r
}

/// The escape prefix that a bold cyan style prints before its text.
pub open spec fn bold_cyan_prefix() -> Seq<char> {
    "\u{1b}[1;36m"@
}

/// The escape prefix that a bold blue style prints before its text.
pub open spec fn bold_blue_prefix() -> Seq<char> {
    "\u{1b}[1;34m"@
}

/// The escape sequence that returns the terminal to its plain style.
pub open spec fn style_reset() -> Seq<char> {
    "\u{1b}[0m"@
}

/// Relies on ansi_term: painting text with a bold foreground colour yields
/// the style's escape prefix ("ESC[1;36m" for bold cyan), the text itself,
/// and the reset sequence "ESC[0m".
#[verifier::external_body]
fn paint_bold_cyan(s: &str) -> (r: String)
    ensures
        r@ == bold_cyan_prefix() + s@ + style_reset(),
{
    ansi_term::Color::Cyan.bold().paint(s).to_string()
}

/// Relies on ansi_term: painting text with a bold foreground colour yields
/// the style's escape prefix ("ESC[1;34m" for bold blue), the text itself,
/// and the reset sequence "ESC[0m".
#[verifier::external_body]
fn paint_bold_blue(s: &str) -> (r: String)
    ensures
        r@ == bold_blue_prefix() + s@ + style_reset(),
{
    ansi_term::Color::Blue.bold().paint(s).to_string()
}

/// Relies on chrono: the local wall-clock time, formatted as
/// "%Y-%m-%d %H:%M:%S". The result depends on the clock, so nothing is
/// promised of it.
#[verifier::external_body]
fn get_time() -> String {
    chrono::Local::now().format("%Y-%m-%d %H:%M:%S").to_string()
}

/// One reminder line stamped with the wall clock now: some stamp, then the
/// sequence number in brackets.
pub fn now_tick_line(seq_no: u64) -> (r: String)
    ensures
        exists|stamp: Seq<char>| r@ == stamp + " ["@ + dec_str(seq_no as nat) + "]"@,
{
    let stamp = get_time();
    let r = tick_line(stamp.as_str(), seq_no);
    proof {
        assert(r@ == stamp@ + " ["@ + dec_str(seq_no as nat) + "]"@);
    }
    r
}

/// The alarm line for a given stamp: the stamp and the alarm marker, painted
/// bold blue.
pub fn alarm_line(stamp: &str) -> (r: String)
    ensures
        r@ == bold_blue_prefix() + stamp@ + " [RUN ALARAM]"@ + style_reset(),
{
    let mut t = String::from_str(stamp);
    t.append(" [RUN ALARAM]");
    let r = paint_bold_blue(t.as_str());
    proof {
        assert(r@ =~= bold_blue_prefix() + stamp@ + " [RUN ALARAM]"@ + style_reset());
    }
    r
}

/// The alarm line stamped with the wall clock now.
pub fn now_alarm_line() -> (r: String)
    ensures
        exists|stamp: Seq<char>|
            r@ == bold_blue_prefix() + stamp + " [RUN ALARAM]"@ + style_reset(),
{
    let stamp = get_time();
    let r = alarm_line(stamp.as_str());
    proof {
        assert(r@ == bold_blue_prefix() + stamp@ + " [RUN ALARAM]"@ + style_reset());
    }
    r
}

/// The four lines of the start-of-cycle banner: the painted headline, the
/// configured file, and the two configured durations.
pub fn banner_lines(file: &str, alarm: TimeSpan, reminder: TimeSpan) -> (r: Vec<String>)
    ensures
        r@.len() == 4,
        r@[0]@ == "\n"@ + bold_cyan_prefix() + "=========== START ALARM ==========="@
            + style_reset() + "\n"@,
        r@[1]@ == "File     : "@ + file@ + "\n"@,
        r@[2]@ == "Alarm    : "@ + duration_display(alarm.secs as nat),
        r@[3]@ == "Reminder : "@ + duration_display(reminder.secs as nat) + "\n"@,
{
    let painted = paint_bold_cyan("=========== START ALARM ===========");
    let mut l0 = String::from_str("\n");
    l0.append(painted.as_str());
    l0.append("\n");
    proof {
        assert(l0@ =~= "\n"@ + bold_cyan_prefix() + "=========== START ALARM ==========="@
            + style_reset() + "\n"@);
    }
    let mut l1 = String::from_str("File     : ");
    l1.append(file);
    l1.append("\n");
    let mut l2 = String::from_str("Alarm    : ");
    let ad = duration_to_display(alarm);
    l2.append(ad.as_str());
    let mut l3 = String::from_str("Reminder : ");
    let rd = duration_to_display(reminder);
    l3.append(rd.as_str());
    l3.append("\n");
    let mut r: Vec<String> = Vec::new();
    r.push(l0);
    r.push(l1);
    r.push(l2);
    r.push(l3);
    r
}

} // verus!
