//! Local date and time, as `%a, %b %d %H:%M:%S`. The caller reads the clock
//! and hands the parts over.
use crate::text::{digit, digit_char, push_char};
use crate::Metric;
use vstd::prelude::*;
use vstd::string::*;

verus! {

/// The parts of a local date and time that the status line shows.
pub struct DateTimeParts {
    /// Days since Monday, 0 to 6.
    pub weekday: u8,
    /// Month, 1 to 12.
    pub month: u8,
    /// Day of month, 1 to 31.
    pub day: u8,
    /// Hour, 0 to 23.
    pub hour: u8,
    /// Minute, 0 to 59.
    pub minute: u8,
    /// Second, 0 to 59.
    pub second: u8,
}

impl DateTimeParts {
    pub open spec fn wf(&self) -> bool {
        &&& self.weekday < 7
        &&& 1 <= self.month <= 12
        &&& 1 <= self.day <= 31
        &&& self.hour < 24
        &&& self.minute < 60
        &&& self.second < 60
    }
}

/// The English abbreviation of a weekday, counted from Monday.
pub open spec fn weekday_name(d: nat) -> Seq<char> {
    seq!["Mon"@, "Tue"@, "Wed"@, "Thu"@, "Fri"@, "Sat"@, "Sun"@][d as int]
}

/// The English abbreviation of a month, counted from one.
pub open spec fn month_name(m: nat) -> Seq<char> {
    seq![
        "Jan"@,
        "Feb"@,
        "Mar"@,
        "Apr"@,
        "May"@,
        "Jun"@,
        "Jul"@,
        "Aug"@,
        "Sep"@,
        "Oct"@,
        "Nov"@,
        "Dec"@,
    ][m - 1]
}

/// `n` in two digits, zero-padded.
pub open spec fn two_digits(n: nat) -> Seq<char> {
    seq![digit(n / 10), digit(n % 10)]
}

/// `%a, %b %d %H:%M:%S` of `t`.
pub open spec fn date_text(t: DateTimeParts) -> Seq<char> {
    weekday_name(t.weekday as nat) + ", "@ + month_name(t.month as nat) + " "@ + two_digits(
        t.day as nat,
    ) + " "@ + two_digits(t.hour as nat) + ":"@ + two_digits(t.minute as nat) + ":"@
        + two_digits(t.second as nat)
}

fn push_two_digits(s: &mut String, n: u8)
    requires
        n < 100,
    ensures
        final(s)@ == old(s)@ + two_digits(n as nat),
{
    push_char(s, digit_char((n / 10) as u64));
    push_char(s, digit_char((n % 10) as u64));
    assert(final(s)@ =~= old(s)@ + two_digits(n as nat));
}

fn push_weekday(s: &mut String, d: u8)
    requires
        d < 7,
    ensures
        final(s)@ == old(s)@ + weekday_name(d as nat),
{
    match d {
        0 => s.append("Mon"),
        1 => s.append("Tue"),
        2 => s.append("Wed"),
        3 => s.append("Thu"),
        4 => s.append("Fri"),
        5 => s.append("Sat"),
        _ => s.append("Sun"),
    }
}

fn push_month(s: &mut String, m: u8)
    requires
        1 <= m <= 12,
    ensures
        final(s)@ == old(s)@ + month_name(m as nat),
{
    match m {
        1 => s.append("Jan"),
        2 => s.append("Feb"),
        3 => s.append("Mar"),
        4 => s.append("Apr"),
        5 => s.append("May"),
        6 => s.append("Jun"),
        7 => s.append("Jul"),
        8 => s.append("Aug"),
        9 => s.append("Sep"),
        10 => s.append("Oct"),
        11 => s.append("Nov"),
        _ => s.append("Dec"),
    }
}

/// Formats `t` as `%a, %b %d %H:%M:%S`.
pub fn format_date(t: &DateTimeParts) -> (r: String)
    requires
        t.wf(),
    ensures
        r@ == date_text(*t),
{
    let mut s = String::new();
    push_weekday(&mut s, t.weekday);
    s.append(", ");
    push_month(&mut s, t.month);
    s.append(" ");
    push_two_digits(&mut s, t.day);
    s.append(" ");
    push_two_digits(&mut s, t.hour);
    s.append(":");
    push_two_digits(&mut s, t.minute);
    s.append(":");
    push_two_digits(&mut s, t.second);
    s
}

/// The local date and time, read when shown.
pub struct DateMetric;

impl DateMetric {
    pub fn new() -> (r: Self) {
        DateMetric
    }

    /// The text for the local date and time `t`, read by the caller when the
    /// line is drawn.
    pub fn text(&self, t: &DateTimeParts) -> (r: String)
        requires
            t.wf(),
        ensures
            r@ == date_text(*t),
    {
        format_date(t)
    }
}

impl Metric for DateMetric {
    open spec fn spec_name(&self) -> Seq<char> {
        "DateTime"@
    }

    fn name(&self) -> (r: &'static str) {
        "DateTime"
    }
}

} // verus!
