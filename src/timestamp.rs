//! Calendar times as plain numbers, and their textual forms.
use chrono::{Datelike, Timelike};
use vstd::prelude::*;

verus! {

/// A calendar date and time of day, as the clock reported it.
#[derive(Clone, Copy, Debug, PartialEq, Eq, Structural)]
pub struct CalendarTime {
    pub year: i32,
    pub month: u32,
    pub day: u32,
    pub hour: u32,
    pub minute: u32,
    pub second: u32,
}

/// The ten decimal digits, in order.
pub open spec fn digit_chars() -> Seq<char> {
    seq!['0', '1', '2', '3', '4', '5', '6', '7', '8', '9']
}

pub open spec fn digit(n: nat) -> char {
    digit_chars()[(n % 10) as int]
}

/// The decimal form of `n`, without leading zeros.
pub open spec fn decimal(n: nat) -> Seq<char>
    decreases n,
{
    if n < 10 {
        seq![digit(n)]
    } else {
        decimal(n / 10).push(digit(n))
    }
}

/// The last two decimal digits of `n`.
pub open spec fn two_digits(n: nat) -> Seq<char> {
    seq![digit(n / 10), digit(n)]
}

/// The year: four digits for years 0 to 9999, otherwise a sign and the digits.
pub open spec fn year_text(y: int) -> Seq<char> {
    if 0 <= y <= 9999 {
        seq![digit((y / 1000) as nat), digit((y / 100) as nat), digit((y / 10) as nat), digit(y as nat)]
    } else if y < 0 {
        seq!['-'] + decimal((-y) as nat)
    } else {
        seq!['+'] + decimal(y as nat)
    }
}

impl CalendarTime {
    pub open spec fn wf(self) -> bool {
        &&& 1 <= self.month <= 12
        &&& 1 <= self.day <= 31
        &&& self.hour <= 23
        &&& self.minute <= 59
        &&& self.second <= 59
    }

    /// `YYYY/MM/DD`: the day bucket under which files are stored.
    pub open spec fn bucket_spec(self) -> Seq<char> {
        year_text(self.year as int) + seq!['/'] + two_digits(self.month as nat) + seq!['/']
            + two_digits(self.day as nat)
    }

    /// `MM/DD/YYYY HH:MM:SS`.
    pub open spec fn stamp_spec(self) -> Seq<char> {
        two_digits(self.month as nat) + seq!['/'] + two_digits(self.day as nat) + seq!['/']
            + year_text(self.year as int) + seq![' '] + two_digits(self.hour as nat) + seq![':']
            + two_digits(self.minute as nat) + seq![':'] + two_digits(self.second as nat)
    }

    /// The date as a relative directory path, year, month and day.
    pub fn bucket(&self) -> (r: String)
        ensures
            r@ == self.bucket_spec(),
    {
        let mut s = String::new();
        push_year(&mut s, self.year);
        push_literal(&mut s, "/");
        push_two_digits(&mut s, self.month);
        push_literal(&mut s, "/");
        push_two_digits(&mut s, self.day);
        proof {
            reveal_strlit("/");
        }
        assert(s@ =~= self.bucket_spec());
        s
    }

    /// The time as month/day/year and hour:minute:second.
    pub fn stamp(&self) -> (r: String)
        ensures
            r@ == self.stamp_spec(),
    {
        let mut s = String::new();
        push_two_digits(&mut s, self.month);
        push_literal(&mut s, "/");
        push_two_digits(&mut s, self.day);
        push_literal(&mut s, "/");
        push_year(&mut s, self.year);
        push_literal(&mut s, " ");
        push_two_digits(&mut s, self.hour);
        push_literal(&mut s, ":");
        push_two_digits(&mut s, self.minute);
        push_literal(&mut s, ":");
        push_two_digits(&mut s, self.second);
        proof {
            reveal_strlit("/");
            reveal_strlit(" ");
            reveal_strlit(":");
        }
        assert(s@ =~= self.stamp_spec());
        s
    }
}

/// Relies on chrono::Utc::now and its calendar accessors, whose documented ranges
/// are month 1 to 12, day 1 to 31, hour 0 to 23, minute and second 0 to 59.
#[verifier::external_body]
pub(crate) fn utc_now() -> (r: CalendarTime)
    ensures
        r.wf(),
{
    let t = chrono::Utc::now();
    CalendarTime {
        year: t.year(),
        month: t.month(),
        day: t.day(),
        hour: t.hour(),
        minute: t.minute(),
        second: t.second(),
    }
}

/// Relies on chrono::Local::now and its calendar accessors, with the same ranges
/// as for the UTC clock.
#[verifier::external_body]
pub(crate) fn local_now() -> (r: CalendarTime)
    ensures
        r.wf(),
{
    let t = chrono::Local::now();
    CalendarTime {
        year: t.year(),
        month: t.month(),
        day: t.day(),
        hour: t.hour(),
        minute: t.minute(),
        second: t.second(),
    }
}

fn push_literal(s: &mut String, lit: &str)
    ensures
        final(s)@ == old(s)@ + lit@,
{
    s.append(lit);
}

fn digit_str(n: u64) -> (r: &'static str)
    ensures
        r@ == seq![digit(n as nat)],
{
    let d = n % 10;
    let r = if d == 0 {
        "0"
    } else if d == 1 {
        "1"
    } else if d == 2 {
        "2"
    } else if d == 3 {
        "3"
    } else if d == 4 {
        "4"
    } else if d == 5 {
        "5"
    } else if d == 6 {
        "6"
    } else if d == 7 {
        "7"
    } else if d == 8 {
        "8"
    } else {
        "9"
    };
    proof {
        reveal_strlit("0");
        reveal_strlit("1");
        reveal_strlit("2");
        reveal_strlit("3");
        reveal_strlit("4");
        reveal_strlit("5");
        reveal_strlit("6");
        reveal_strlit("7");
        reveal_strlit("8");
        reveal_strlit("9");
        assert(r@ =~= seq![digit(n as nat)]);
    }
    r
}

fn push_two_digits(s: &mut String, n: u32)
    ensures
        final(s)@ == old(s)@ + two_digits(n as nat),
{
    let a = digit_str((n / 10) as u64);
    let b = digit_str(n as u64);
    s.append(a);
    s.append(b);
    assert(final(s)@ =~= old(s)@ + two_digits(n as nat));
}

pub(crate) fn push_decimal(s: &mut String, n: u64)
    ensures
        final(s)@ == old(s)@ + decimal(n as nat),
    decreases n,
{
    if n >= 10 {
        push_decimal(s, n / 10);
    }
    let d = digit_str(n);
    s.append(d);
    assert(final(s)@ =~= old(s)@ + decimal(n as nat));
}

fn push_year(s: &mut String, y: i32)
    ensures
        final(s)@ == old(s)@ + year_text(y as int),
{
    if 0 <= y && y <= 9999 {
        let n = y as u32;
        s.append(digit_str((n / 1000) as u64));
        s.append(digit_str((n / 100) as u64));
        s.append(digit_str((n / 10) as u64));
        s.append(digit_str(n as u64));
        assert(final(s)@ =~= old(s)@ + year_text(y as int));
    } else if y < 0 {
        s.append("-");
        let m = (-(y as i64)) as u32;
        push_decimal(s, m as u64);
        proof {
            reveal_strlit("-");
        }
        assert(final(s)@ =~= old(s)@ + year_text(y as int));
    } else {
        s.append("+");
        push_decimal(s, y as u64);
        proof {
            reveal_strlit("+");
        }
        assert(final(s)@ =~= old(s)@ + year_text(y as int));
    }
}

} // verus!
