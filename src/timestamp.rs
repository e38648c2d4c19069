use vstd::prelude::*;

use chrono::{Datelike, Timelike};

verus! {

/// A UTC instant to the minute, as the calendar shows it.
#[derive(Debug, Clone, Copy, PartialEq, Eq, Structural)]
pub struct Timestamp {
    pub year: i32,
    pub month: u32,
    pub day: u32,
    pub hour: u32,
    pub minute: u32,
}

impl Timestamp {
    /// Each field lies in its calendar range.
    pub open spec fn wf(&self) -> bool {
        1 <= self.month <= 12 && 1 <= self.day <= 31 && self.hour <= 23 && self.minute <= 59
    }
}

/// The decimal digit character for `d`.
pub open spec fn digit(d: nat) -> char {
    ((d % 10) + 48) as char
}

/// The decimal digits of `n`, most significant first, without leading zeros.
pub open spec fn decimal(n: nat) -> Seq<char>
    decreases n,
{
    if n < 10 {
        seq![digit(n)]
    } else {
        decimal(n / 10).push(digit(n % 10))
    }
}

/// `s` with zeros put in front until it is `width` long.
pub open spec fn zero_pad(s: Seq<char>, width: nat) -> Seq<char> {
    if s.len() < width {
        Seq::new((width - s.len()) as nat, |i: int| '0') + s
    } else {
        s
    }
}

/// A year as chrono's `%Y` writes it: four digits at least, with a sign
/// outside 0 to 9999.
pub open spec fn year_text(y: int) -> Seq<char> {
    if 0 <= y <= 9999 {
        zero_pad(decimal(y as nat), 4)
    } else if y < 0 {
        seq!['-'] + zero_pad(decimal((-y) as nat), 4)
    } else {
        seq!['+'] + zero_pad(decimal(y as nat), 4)
    }
}

/// A number below 100 as two digits.
pub open spec fn two_digits(n: nat) -> Seq<char> {
    seq![digit(n / 10), digit(n % 10)]
}

/// The text `YYYY/MM/DD HH:MM` of a timestamp.
pub open spec fn timestamp_text(t: Timestamp) -> Seq<char> {
    year_text(t.year as int) + seq!['/'] + two_digits(t.month as nat) + seq!['/'] + two_digits(
        t.day as nat,
    ) + seq![' '] + two_digits(t.hour as nat) + seq![':'] + two_digits(t.minute as nat)
}

/// Relies on std's `SystemTime::now` and `duration_since(UNIX_EPOCH)` for the
/// whole seconds elapsed since 1970-01-01 UTC; `None` when the system clock
/// reads earlier than that.
#[verifier::external_body]
fn epoch_seconds() -> (r: Option<u64>) {
    match std::time::SystemTime::now().duration_since(std::time::UNIX_EPOCH) {
        Ok(d) => Some(d.as_secs()),
        Err(_) => None,
    }
}

/// The UTC calendar date (year, month, day) of the day `day` days after
/// 1970-01-01, as chrono's proleptic Gregorian calendar gives it.
pub uninterp spec fn utc_date_of_day(day: int) -> (int, int, int);

/// Whether `t` is the UTC calendar time, to the minute, of the instant
/// `secs` seconds after 1970-01-01 00:00 UTC.
pub open spec fn is_utc_time_of(secs: int, t: Timestamp) -> bool {
    &&& t.wf()
    &&& t.hour == (secs % 86400) / 3600
    &&& t.minute == (secs % 3600) / 60
    &&& (t.year as int, t.month as int, t.day as int) == utc_date_of_day(secs / 86400)
}

/// Relies on chrono's `DateTime::from_timestamp`, which splits `secs` into
/// days since 1970-01-01 and seconds of the day, and gives `None` only when
/// the day lies outside `NaiveDate`'s range (years up to 262142, far beyond
/// 9999-12-31 23:59:59, which is 253402300799 seconds); and on `Datelike` /
/// `Timelike` for the year, month (1 to 12), day (1 to 31), hour (0 to 23)
/// and minute (0 to 59) of the UTC instant it returns.
#[verifier::external_body]
fn utc_of_seconds(secs: i64) -> (r: Option<Timestamp>)
    requires
        0 <= secs,
    ensures
        secs <= 253402300799 ==> r is Some,
        r matches Some(t) ==> is_utc_time_of(secs as int, t),
        r matches Some(t) ==> (t.year as int, t.month as int, t.day as int) == utc_date_of_day(
            secs as int / 86400,
        ),
{
    match chrono::DateTime::from_timestamp(secs, 0) {
        Some(t) => Some(Timestamp {
            year: t.year(),
            month: t.month(),
            day: t.day(),
            hour: t.hour(),
            minute: t.minute(),
        }),
        None => None,
    }
}

/// The one-character string of a decimal digit.
fn digit_str(d: u32) -> (r: &'static str)
    requires
        d < 10,
    ensures
        r@ == seq![digit(d as nat)],
{
    proof {
        reveal_strlit("0");
        reveal_strlit("1");
        reveal_strlit("2");
        reveal_strlit("3");
        reveal_strlit("4");
        reveal_strlit("5");
        reveal_strlit("6");
        reveal_strlit("7");
        reveal_strlit("8");
        reveal_strlit("9");
    }
    let r = match d {
        0 => "0",
        1 => "1",
        2 => "2",
        3 => "3",
        4 => "4",
        5 => "5",
        6 => "6",
        7 => "7",
        8 => "8",
        _ => "9",
    };
    assert(r@ =~= seq![digit(d as nat)]);
    r
}

/// Appends the decimal digits of `n`.
fn push_decimal(s: &mut String, n: u32)
    ensures
        final(s)@ == old(s)@ + decimal(n as nat),
    decreases n,
{
    if n < 10 {
        s.append(digit_str(n));
    } else {
        push_decimal(s, n / 10);
        s.append(digit_str(n % 10));
        assert(decimal(n as nat) == decimal((n / 10) as nat).push(digit((n % 10) as nat)));
        assert(final(s)@ =~= old(s)@ + decimal(n as nat));
    }
}

proof fn lemma_decimal_len(n: nat)
    ensures
        n < 10 ==> decimal(n).len() == 1,
        10 <= n < 100 ==> decimal(n).len() == 2,
        100 <= n < 1000 ==> decimal(n).len() == 3,
        1000 <= n ==> decimal(n).len() >= 4,
    decreases n,
{
    if n >= 10 {
        lemma_decimal_len(n / 10);
    }
}

/// Appends `n` in decimal, zero-padded to four digits.
fn push_padded4(s: &mut String, n: u32)
    ensures
        final(s)@ == old(s)@ + zero_pad(decimal(n as nat), 4),
{
    proof {
        lemma_decimal_len(n as nat);
        reveal_strlit("000");
        reveal_strlit("00");
        reveal_strlit("0");
    }
    let ghost start = s@;
    if n < 10 {
        s.append("000");
        assert("000"@ =~= Seq::new(3, |i: int| '0'));
    } else if n < 100 {
        s.append("00");
        assert("00"@ =~= Seq::new(2, |i: int| '0'));
    } else if n < 1000 {
        s.append("0");
        assert("0"@ =~= Seq::new(1, |i: int| '0'));
    }
    push_decimal(s, n);
    assert(s@ =~= start + zero_pad(decimal(n as nat), 4));
}

/// Appends a number below 100 as two digits.
fn push_two(s: &mut String, n: u32)
    requires
        n < 100,
    ensures
        final(s)@ == old(s)@ + two_digits(n as nat),
{
    s.append(digit_str(n / 10));
    s.append(digit_str(n % 10));
    assert(final(s)@ =~= old(s)@ + two_digits(n as nat));
}

impl Timestamp {
    /// The timestamp written as `YYYY/MM/DD HH:MM`.
    pub fn format(&self) -> (r: String)
        requires
            self.wf(),
        ensures
            r@ == timestamp_text(*self),
    {
        proof {
            reveal_strlit("-");
            reveal_strlit("+");
            reveal_strlit("/");
            reveal_strlit(" ");
            reveal_strlit(":");
            assert("-"@ =~= seq!['-']);
            assert("+"@ =~= seq!['+']);
            assert("/"@ =~= seq!['/']);
            assert(" "@ =~= seq![' ']);
            assert(":"@ =~= seq![':']);
        }
        let mut s = String::new();
        if 0 <= self.year && self.year <= 9999 {
            push_padded4(&mut s, self.year as u32);
        } else if self.year < 0 {
            s.append("-");
            let magnitude: u32 = (0i64 - self.year as i64) as u32;
            push_padded4(&mut s, magnitude);
        } else {
            s.append("+");
            push_padded4(&mut s, self.year as u32);
        }
        assert(s@ =~= year_text(self.year as int));
        s.append("/");
        push_two(&mut s, self.month);
        s.append("/");
        push_two(&mut s, self.day);
        s.append(" ");
        push_two(&mut s, self.hour);
        s.append(":");
        push_two(&mut s, self.minute);
        assert(s@ =~= timestamp_text(*self));
        s
    }

    /// The UTC time, to the minute, of the instant `secs` seconds after
    /// 1970-01-01 00:00 UTC; `None` past the calendar's range.
    pub fn from_epoch_seconds(secs: u64) -> (r: Option<Timestamp>)
        ensures
            secs <= 253402300799 ==> r is Some,
            secs > 9223372036854775807 ==> r is None,
            r matches Some(t) ==> is_utc_time_of(secs as int, t),
    {
        if secs <= 9223372036854775807u64 {
            utc_of_seconds(secs as i64)
        } else {
            None
        }
    }

    /// The current UTC time; `None` when the system clock reads before
    /// 1970 or beyond what a calendar date can hold.
    pub fn now() -> (r: Option<Timestamp>)
        ensures
            r matches Some(t) ==> exists|secs: u64| is_utc_time_of(secs as int, t),
    {
        match epoch_seconds() {
            Some(secs) => Timestamp::from_epoch_seconds(secs),
            None => None,
        }
    }
}

} // verus!
