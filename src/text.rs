use vstd::prelude::*;

use crate::screen::ScreenOptions;

verus! {

/// The decimal digit for `d`.
pub open spec fn digit_char(d: int) -> char {
    if d == 0 {
        '0'
    } else if d == 1 {
        '1'
    } else if d == 2 {
        '2'
    } else if d == 3 {
        '3'
    } else if d == 4 {
        '4'
    } else if d == 5 {
        '5'
    } else if d == 6 {
        '6'
    } else if d == 7 {
        '7'
    } else if d == 8 {
        '8'
    } else {
        '9'
    }
}

/// `n` written in decimal, without leading zeros.
pub open spec fn decimal(n: nat) -> Seq<char>
    decreases n,
{
    if n < 10 {
        seq![digit_char(n as int)]
    } else {
        decimal(n / 10).push(digit_char((n % 10) as int))
    }
}

/// `n` (below 100) written with two digits.
pub open spec fn two_digits(n: nat) -> Seq<char> {
    seq![digit_char((n / 10) as int), digit_char((n % 10) as int)]
}

/// `n` (below 10000) written with four digits.
pub open spec fn four_digits(n: nat) -> Seq<char> {
    seq![
        digit_char((n / 1000) as int),
        digit_char((n / 100 % 10) as int),
        digit_char((n / 10 % 10) as int),
        digit_char((n % 10) as int),
    ]
}

/// An uptime in seconds as `h:mm:ss`, the hours without a bound.
pub open spec fn uptime_spec(uptime: nat) -> Seq<char> {
    decimal(uptime / 3600) + seq![':'] + two_digits(uptime % 3600 / 60) + seq![':'] + two_digits(
        uptime % 60,
    )
}

/// The header line: the uptime, a space, then the OS version.
pub open spec fn header_spec(uptime: nat, version: Seq<char>) -> Seq<char> {
    uptime_spec(uptime) + seq![' '] + version
}

/// The header information: the uptime, a tab, then the OS version.
pub open spec fn header_info_spec(uptime: nat, version: Seq<char>) -> Seq<char> {
    uptime_spec(uptime) + seq!['\t'] + version
}

fn digit_str(d: u64) -> (r: &'static str)
    requires
        d < 10,
    ensures
        r@ == seq![digit_char(d as int)],
{
    proof {
        reveal_strlit("0");
        reveal_strlit("1");
        reveal_strlit("2");
        reveal_strlit("3");
        reveal_strlit("4");
        reveal_strlit("5");
        reveal_strlit("6");
        reveal_strlit("7");
        reveal_strlit("8");
        reveal_strlit("9");
    }
    if d == 0 {
        "0"
    } else if d == 1 {
        "1"
    } else if d == 2 {
        "2"
    } else if d == 3 {
        "3"
    } else if d == 4 {
        "4"
    } else if d == 5 {
        "5"
    } else if d == 6 {
        "6"
    } else if d == 7 {
        "7"
    } else if d == 8 {
        "8"
    } else {
        "9"
    }
}

/// Appends `n` in decimal to `s`.
pub fn push_decimal(s: &mut String, n: u64)
    ensures
        final(s)@ == old(s)@ + decimal(n as nat),
    decreases n,
{
    if n >= 10 {
        push_decimal(s, n / 10);
    }
    s.append(digit_str(n % 10));
    assert(old(s)@ + decimal(n as nat) =~= final(s)@);
}

/// Appends `n` (below 100) to `s` with two digits.
pub fn push_two_digits(s: &mut String, n: u64)
    requires
        n < 100,
    ensures
        final(s)@ == old(s)@ + two_digits(n as nat),
{
    s.append(digit_str(n / 10));
    s.append(digit_str(n % 10));
    assert(old(s)@ + two_digits(n as nat) =~= final(s)@);
}

/// Appends an uptime in seconds to `s` as `h:mm:ss`.
pub fn push_uptime(s: &mut String, uptime: u64)
    ensures
        final(s)@ == old(s)@ + uptime_spec(uptime as nat),
{
    proof {
        reveal_strlit(":");
    }
    push_decimal(s, uptime / 3600);
    s.append(":");
    push_two_digits(s, uptime % 3600 / 60);
    s.append(":");
    push_two_digits(s, uptime % 60);
    assert(final(s)@ =~= old(s)@ + uptime_spec(uptime as nat));
}

/// The header line for an uptime in seconds and an OS version string.
pub fn header_text(uptime: u64, version: &str) -> (r: String)
    ensures
        r@ == header_spec(uptime as nat, version@),
{
    proof {
        reveal_strlit(" ");
    }
    let mut s = String::new();
    push_uptime(&mut s, uptime);
    s.append(" ");
    s.append(version);
    assert(s@ =~= header_spec(uptime as nat, version@));
    s
}

/// The uptime and the OS version separated by a tab.
pub fn get_header_info(uptime: u64, version: &str) -> (r: String)
    ensures
        r@ == header_info_spec(uptime as nat, version@),
{
    proof {
        reveal_strlit("\t");
    }
    let mut s = String::new();
    push_uptime(&mut s, uptime);
    s.append("\t");
    s.append(version);
    assert(s@ =~= header_info_spec(uptime as nat, version@));
    s
}

/// The three footer slots for a screen: left action, middle status, right
/// action.
pub open spec fn footer_labels(screen: ScreenOptions) -> (Seq<char>, Seq<char>, Seq<char>) {
    match screen {
        ScreenOptions::Home => ("menu"@, "null"@, "system-info"@),
        _ => ("null"@, "home"@, "null"@),
    }
}

/// The footer line: the three slots separated by bars.
pub open spec fn footer_spec(screen: ScreenOptions) -> Seq<char> {
    let (left, middle, right) = footer_labels(screen);
    left + " | "@ + middle + " | "@ + right
}

/// The footer line for a screen.
pub fn footer_text(screen: ScreenOptions) -> (r: String)
    ensures
        r@ == footer_spec(screen),
{
    let (left, middle, right) = match screen {
        ScreenOptions::Home => ("menu", "null", "system-info"),
        _ => ("null", "home", "null"),
    };
    let mut s = String::from_str(left);
    s.append(" | ");
    s.append(middle);
    s.append(" | ");
    s.append(right);
    s
}

/// A moment of the proleptic Gregorian calendar, to the second.
#[derive(Debug, Clone, Copy, PartialEq, Eq, Structural)]
pub struct CalendarTime {
    pub year: i32,
    pub month: u32,
    pub day: u32,
    pub hour: u32,
    pub minute: u32,
    pub second: u32,
}

/// Whether `year` has a 29th of February.
pub open spec fn is_leap_year(year: int) -> bool {
    year % 4 == 0 && (year % 100 != 0 || year % 400 == 0)
}

/// The number of days of a month (1 to 12) of a year.
pub open spec fn days_in_month(year: int, month: int) -> int {
    if month == 2 {
        if is_leap_year(year) {
            29
        } else {
            28
        }
    } else if month == 4 || month == 6 || month == 9 || month == 11 {
        30
    } else {
        31
    }
}

impl CalendarTime {
    /// A real moment of a year written with four digits.
    pub open spec fn wf(self) -> bool {
        &&& 0 <= self.year <= 9999
        &&& 1 <= self.month <= 12
        &&& 1 <= self.day <= days_in_month(self.year as int, self.month as int)
        &&& self.hour < 24
        &&& self.minute < 60
        &&& self.second < 60
    }

    /// The moment with these fields, if they name a real moment of a year
    /// written with four digits.
    pub fn new(year: i32, month: u32, day: u32, hour: u32, minute: u32, second: u32) -> (r: Option<
        CalendarTime,
    >)
        ensures
            r == (if (CalendarTime { year, month, day, hour, minute, second }).wf() {
                Some(CalendarTime { year, month, day, hour, minute, second })
            } else {
                None
            }),
    {
        let t = CalendarTime { year, month, day, hour, minute, second };
        if year < 0 || year > 9999 || month < 1 || month > 12 || hour >= 24 || minute >= 60
            || second >= 60 || day < 1 {
            return None;
        }
        let leap = year % 4 == 0 && (year % 100 != 0 || year % 400 == 0);
        let days: u32 = if month == 2 {
            if leap {
                29
            } else {
                28
            }
        } else if month == 4 || month == 6 || month == 9 || month == 11 {
            30
        } else {
            31
        };
        if day > days {
            None
        } else {
            Some(t)
        }
    }
}

/// The moment written as `YYYY-MM-DD hh:mm:ss`.
pub open spec fn datetime_spec(t: CalendarTime) -> Seq<char> {
    four_digits(t.year as nat) + seq!['-'] + two_digits(t.month as nat) + seq!['-'] + two_digits(
        t.day as nat,
    ) + seq![' '] + two_digits(t.hour as nat) + seq![':'] + two_digits(t.minute as nat) + seq![
        ':',
    ] + two_digits(t.second as nat)
}

/// Relies on chrono's NaiveDate::from_ymd_opt and NaiveDate::and_hms_opt,
/// which accept every real date and time of day, and on formatting with
/// "%Y-%m-%d %H:%M:%S", which writes a year from 0 to 9999 with four digits
/// and each other field with two, zero-padded.
#[verifier::external_body]
pub(crate) fn datetime_text(t: &CalendarTime) -> (r: String)
    requires
        t.wf(),
    ensures
        r@ == datetime_spec(*t),
{
    match chrono::NaiveDate::from_ymd_opt(t.year, t.month, t.day) {
        Some(date) => match date.and_hms_opt(t.hour, t.minute, t.second) {
            Some(moment) => moment.format("%Y-%m-%d %H:%M:%S").to_string(),
            None => String::new(),
        },
        None => String::new(),
    }
}

} // verus!
