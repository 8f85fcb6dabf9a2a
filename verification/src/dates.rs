//! Calendar dates and their `dd/mm/yyyy` notation.
use vstd::prelude::*;
use crate::text::digit_char;
use chrono::Datelike;

verus! {

/// A day of the proleptic Gregorian calendar.
#[derive(Clone, Copy, Debug, PartialEq, Eq, Structural)]
pub struct CalendarDate {
    pub year: i32,
    pub month: u32,
    pub day: u32,
}

pub open spec fn is_leap_year(y: int) -> bool {
    (y % 4 == 0 && y % 100 != 0) || y % 400 == 0
}

pub open spec fn days_in_month(y: int, m: int) -> int {
    if m == 2 {
        if is_leap_year(y) {
            29
        } else {
            28
        }
    } else if m == 4 || m == 6 || m == 9 || m == 11 {
        30
    } else {
        31
    }
}

/// A day that exists: a month from 1 to 12 and a day within that month.
pub open spec fn valid_ymd(y: int, m: int, d: int) -> bool {
    1 <= m <= 12 && 1 <= d <= days_in_month(y, m)
}

/// The years that the date library represents.
pub open spec fn year_in_range(y: int) -> bool {
    -262143 <= y <= 262142
}

pub open spec fn valid_date(d: CalendarDate) -> bool {
    valid_ymd(d.year as int, d.month as int, d.day as int) && year_in_range(d.year as int)
}

/// Two decimal digits of a number below 100.
pub open spec fn two_digits(n: int) -> Seq<char> {
    seq![digit_char(n / 10), digit_char(n % 10)]
}

/// Four decimal digits of a number below 10000.
pub open spec fn four_digits(n: int) -> Seq<char> {
    seq![digit_char(n / 1000), digit_char((n / 100) % 10), digit_char((n / 10) % 10), digit_char(n % 10)]
}

/// `dd/mm/yyyy` for a date of the years 0 to 9999.
pub open spec fn dmy_text(d: CalendarDate) -> Seq<char> {
    two_digits(d.day as int) + seq!['/'] + two_digits(d.month as int) + seq!['/'] + four_digits(
        d.year as int,
    )
}

/// The first day of 1970, from which Unix time counts.
pub open spec fn epoch() -> CalendarDate {
    CalendarDate { year: 1970, month: 1, day: 1 }
}

/// The UTC day of the instant `secs` seconds after the start of 1970 (before
/// it where negative), or `None` outside chrono's range of years.
pub open spec fn utc_day(secs: int) -> Option<CalendarDate> {
    shifted_date(epoch(), secs / 86400)
}

/// The current instant, in seconds since the start of 1970 in UTC.
///
/// Converts `std::time::SystemTime::now()` with chrono's
/// `From<SystemTime> for DateTime<Utc>` (which, unlike `Utc::now`, also takes
/// a clock set before 1970) and takes `DateTime::timestamp`. The conversion
/// unwraps `Utc.timestamp_opt`, so it returns only for an instant whose day
/// lies in chrono's range of years, which is what the contract claims; which
/// instant it is depends on the clock and is left unsaid.
#[verifier::external_body]
pub fn unix_now() -> (secs: i64)
    ensures
        utc_day(secs as int) is Some,
{
    chrono::DateTime::<chrono::Utc>::from(std::time::SystemTime::now()).timestamp()
}

/// How many seconds local time is ahead of UTC at an instant, in the
/// machine's time zone.
///
/// Calls chrono's `DateTime::from_timestamp` (which succeeds for an instant
/// whose day lies in chrono's range, as `requires` asks), converts with
/// `with_timezone(&Local)` and reads `FixedOffset::local_minus_utc` of the
/// offset. The contract claims only the bound that every `FixedOffset` keeps
/// (`FixedOffset::east_opt` refuses a whole day or more); which offset comes
/// back depends on the machine's time zone and is left unsaid.
#[verifier::external_body]
pub fn local_offset_at(secs: i64) -> (off: i32)
    requires
        utc_day(secs as int) is Some,
    ensures
        -86400 < off < 86400,
{
    chrono::DateTime::from_timestamp(secs, 0).unwrap().with_timezone(&chrono::Local).offset().local_minus_utc()
}

/// The day after a day.
pub open spec fn next_day(d: CalendarDate) -> CalendarDate {
    if (d.day as int) < days_in_month(d.year as int, d.month as int) {
        CalendarDate { day: (d.day + 1) as u32, ..d }
    } else if d.month < 12 {
        CalendarDate { month: (d.month + 1) as u32, day: 1, ..d }
    } else {
        CalendarDate { year: (d.year + 1) as i32, month: 1, day: 1 }
    }
}

/// The day before a day.
pub open spec fn prev_day(d: CalendarDate) -> CalendarDate {
    if d.day > 1 {
        CalendarDate { day: (d.day - 1) as u32, ..d }
    } else if d.month > 1 {
        CalendarDate {
            month: (d.month - 1) as u32,
            day: days_in_month(d.year as int, d.month - 1) as u32,
            ..d
        }
    } else {
        CalendarDate { year: (d.year - 1) as i32, month: 12, day: 31 }
    }
}

/// The date `n` days after `d` (before it for negative `n`): the next or the
/// previous day taken `n` times, or `None` where a step leaves chrono's range
/// of years.
pub open spec fn shifted_date(d: CalendarDate, n: int) -> Option<CalendarDate>
    decreases (if n < 0 {
        -n
    } else {
        n
    }),
{
    if n == 0 {
        Some(d)
    } else if n > 0 {
        match shifted_date(d, n - 1) {
            Some(e) => if year_in_range(next_day(e).year as int) {
                Some(next_day(e))
            } else {
                None
            },
            None => None,
        }
    } else {
        match shifted_date(d, n + 1) {
            Some(e) => if year_in_range(prev_day(e).year as int) {
                Some(prev_day(e))
            } else {
                None
            },
            None => None,
        }
    }
}

/// Moves a date by a number of days.
///
/// Calls `chrono::NaiveDate::checked_add_signed` with `TimeDelta::try_days(n)`.
/// The contract claims what chrono documents: the date `n` days later (earlier
/// for negative `n`), or `None` where it leaves the range of `NaiveDate`, whose
/// years are those of `year_in_range`.
#[verifier::external_body]
pub fn shift_days(d: CalendarDate, n: i64) -> (res: Option<CalendarDate>)
    requires
        valid_date(d),
    ensures
        res == shifted_date(d, n as int),
{
    let start = chrono::NaiveDate::from_ymd_opt(d.year, d.month, d.day).unwrap();
    match chrono::TimeDelta::try_days(n).and_then(|delta| start.checked_add_signed(delta)) {
        Some(r) => Some(CalendarDate { year: r.year(), month: r.month(), day: r.day() }),
        None => None,
    }
}

/// A number that orders days: a later day has a larger key.
pub open spec fn day_key(d: CalendarDate) -> int {
    d.year * 512 + d.month * 32 + d.day
}

proof fn lemma_step_valid(e: CalendarDate)
    requires
        valid_date(e),
    ensures
        valid_ymd(next_day(e).year as int, next_day(e).month as int, next_day(e).day as int),
        valid_ymd(prev_day(e).year as int, prev_day(e).month as int, prev_day(e).day as int),
        day_key(e) < day_key(next_day(e)),
        day_key(prev_day(e)) < day_key(e),
{
}

/// Each date a shift reaches exists, and later shifts reach later days.
pub proof fn lemma_shift_valid(d: CalendarDate, n: int)
    requires
        valid_date(d),
    ensures
        shifted_date(d, n) matches Some(e) ==> valid_date(e),
        n > 0 && shifted_date(d, n) is Some ==> shifted_date(d, n - 1) is Some && day_key(
            shifted_date(d, n - 1)->Some_0,
        ) < day_key(shifted_date(d, n)->Some_0),
        n < 0 && shifted_date(d, n) is Some ==> shifted_date(d, n + 1) is Some && day_key(
            shifted_date(d, n)->Some_0,
        ) < day_key(shifted_date(d, n + 1)->Some_0),
    decreases (if n < 0 {
        -n
    } else {
        n
    }),
{
    if n > 0 {
        lemma_shift_valid(d, n - 1);
        if let Some(e) = shifted_date(d, n - 1) {
            lemma_step_valid(e);
        }
    } else if n < 0 {
        lemma_shift_valid(d, n + 1);
        if let Some(e) = shifted_date(d, n + 1) {
            lemma_step_valid(e);
        }
    }
}

/// Of two shifts of a day that both stay in range, the larger reaches the
/// later day; so different shifts reach different days.
pub proof fn lemma_shift_ordered(d: CalendarDate, a: int, b: int)
    requires
        valid_date(d),
        a < b,
        shifted_date(d, a) is Some,
        shifted_date(d, b) is Some,
    ensures
        day_key(shifted_date(d, a)->Some_0) < day_key(shifted_date(d, b)->Some_0),
    decreases b - a,
{
    if b > 0 {
        lemma_shift_valid(d, b);
        if a < b - 1 {
            lemma_shift_ordered(d, a, b - 1);
        }
    } else {
        lemma_shift_valid(d, a);
        if a + 1 < b {
            lemma_shift_ordered(d, a + 1, b);
        }
    }
}

/// `date.format("%d/%m/%Y").to_string()`.
///
/// Calls chrono's `format` with the pattern `%d/%m/%Y`. The contract claims
/// what chrono documents for the years 0 to 9999: the day and the month with
/// two digits, the year with four, separated by `/`. Other years are written
/// with a sign, which the contract leaves unsaid.
#[verifier::external_body]
pub fn format_date(d: CalendarDate) -> (s: String)
    requires
        valid_date(d),
    ensures
        0 <= d.year <= 9999 ==> s@ == dmy_text(d),
{
    chrono::NaiveDate::from_ymd_opt(d.year, d.month, d.day).unwrap().format("%d/%m/%Y").to_string()
}

/// The UTC day of an instant given in seconds since the start of 1970, or
/// `None` outside chrono's range of years.
pub fn day_of(secs: i64) -> (r: Option<CalendarDate>)
    ensures
        r == utc_day(secs as int),
        r matches Some(d) ==> valid_date(d),
{
    let days: i64 = if secs >= 0 {
        secs / 86400
    } else {
        let m: i64 = -(secs + 1);
        proof {
            let q = m / 86400;
            let r = m % 86400;
            assert(m == 86400 * q + r);
            assert(secs == 86400 * (-q - 1) + (86399 - r));
            assert((secs as int) / 86400 == -q - 1);
        }
        -(m / 86400) - 1
    };
    proof {
        lemma_shift_valid(epoch(), days as int);
    }
    shift_days(CalendarDate { year: 1970, month: 1, day: 1 }, days)
}

pub open spec fn is_digit(c: char) -> bool {
    '0' <= c && c <= '9'
}

pub open spec fn digit_value(c: char) -> int {
    (c as int) - 48
}

/// The number written by digits `s[i]`, `s[i+1]`, ..., `s[j-1]`.
pub open spec fn number_at(s: Seq<char>, i: int, j: int) -> int
    decreases j - i,
{
    if j <= i {
        0
    } else {
        number_at(s, i, j - 1) * 10 + digit_value(s[j - 1])
    }
}

/// A text of the form `dd/mm/yyyy` naming a day that exists.
pub open spec fn date_text_ok(s: Seq<char>) -> bool {
    &&& s.len() == 10
    &&& s[2] == '/'
    &&& s[5] == '/'
    &&& is_digit(s[0]) && is_digit(s[1])
    &&& is_digit(s[3]) && is_digit(s[4])
    &&& is_digit(s[6]) && is_digit(s[7]) && is_digit(s[8]) && is_digit(s[9])
    &&& valid_ymd(number_at(s, 6, 10), number_at(s, 3, 5), number_at(s, 0, 2))
}

fn digit_at(s: &str, i: usize) -> (r: Option<u32>)
    requires
        i < s@.len(),
    ensures
        r is Some <==> is_digit(s@[i as int]),
        r matches Some(v) ==> v == digit_value(s@[i as int]),
{
    let c = s.get_char(i);
    if '0' <= c && c <= '9' {
        Some((c as u32) - 48)
    } else {
        None
    }
}

pub fn is_leap(y: u32) -> (b: bool)
    ensures
        b == is_leap_year(y as int),
{
    (y % 4 == 0 && y % 100 != 0) || y % 400 == 0
}

pub fn month_length(y: u32, m: u32) -> (n: u32)
    ensures
        n == days_in_month(y as int, m as int),
{
    if m == 2 {
        if is_leap(y) {
            29
        } else {
            28
        }
    } else if m == 4 || m == 6 || m == 9 || m == 11 {
        30
    } else {
        31
    }
}

/// Whether a text is a date written `dd/mm/yyyy` that exists in the calendar.
pub fn is_date_text(s: &str) -> (b: bool)
    ensures
        b == date_text_ok(s@),
{
    let n = s.unicode_len();
    if n != 10 {
        return false;
    }
    if s.get_char(2) != '/' || s.get_char(5) != '/' {
        return false;
    }
    let d0 = digit_at(s, 0);
    let d1 = digit_at(s, 1);
    let m0 = digit_at(s, 3);
    let m1 = digit_at(s, 4);
    let y0 = digit_at(s, 6);
    let y1 = digit_at(s, 7);
    let y2 = digit_at(s, 8);
    let y3 = digit_at(s, 9);
    match (d0, d1, m0, m1, y0, y1, y2, y3) {
        (Some(d0), Some(d1), Some(m0), Some(m1), Some(y0), Some(y1), Some(y2), Some(y3)) => {
            let day = d0 * 10 + d1;
            let month = m0 * 10 + m1;
            let year = ((y0 * 10 + y1) * 10 + y2) * 10 + y3;
            proof {
                let t = s@;
                assert(number_at(t, 0, 2) == day) by {
                    assert(number_at(t, 0, 0) == 0);
                    assert(number_at(t, 0, 1) == d0);
                }
                assert(number_at(t, 3, 5) == month) by {
                    assert(number_at(t, 3, 3) == 0);
                    assert(number_at(t, 3, 4) == m0);
                }
                assert(number_at(t, 6, 10) == year) by {
                    assert(number_at(t, 6, 6) == 0);
                    assert(number_at(t, 6, 7) == y0);
                    assert(number_at(t, 6, 8) == y0 * 10 + y1);
                    assert(number_at(t, 6, 9) == (y0 * 10 + y1) * 10 + y2);
                }
            }
            1 <= month && month <= 12 && 1 <= day && day <= month_length(year, month)
        },
        _ => false,
    }
}

} // verus!
