//! Calendar dates as plain year/month/day values, with verified day
//! arithmetic for the plan window and ISO rendering for the prompts.

use vstd::prelude::*;
use vstd::string::*;
use crate::text::{dchar, append_digit};

verus! {

/// A calendar date in the proleptic Gregorian calendar, held as plain values
/// so the window arithmetic can be reasoned about directly.
#[derive(Debug, Clone, Copy, PartialEq, Eq, Structural)]
pub struct PlainDate {
    pub year: u32,
    pub month: u8,
    pub day: u8,
}

/// Gregorian leap-year rule.
pub open spec fn is_leap_year(y: int) -> bool {
    y % 4 == 0 && (y % 100 != 0 || y % 400 == 0)
}

/// Number of days in a month of a given year.
pub open spec fn days_in_month(y: int, m: int) -> int {
    if m == 2 {
        if is_leap_year(y) {
            29
        } else {
            28
        }
    } else if m == 4 || m == 6 || m == 9 || m == 11 {
        30
    } else {
        31
    }
}

/// A date the calendar admits, within the four-digit years the ISO
/// rendering covers.
pub open spec fn date_valid(d: PlainDate) -> bool {
    &&& 1 <= d.year <= 9999
    &&& 1 <= d.month <= 12
    &&& 1 <= d.day <= days_in_month(d.year as int, d.month as int)
}

/// The day after `d`.
pub open spec fn spec_next_day(d: PlainDate) -> PlainDate {
    if d.day < days_in_month(d.year as int, d.month as int) {
        PlainDate { year: d.year, month: d.month, day: (d.day + 1) as u8 }
    } else if d.month < 12 {
        PlainDate { year: d.year, month: (d.month + 1) as u8, day: 1 }
    } else {
        PlainDate { year: (d.year + 1) as u32, month: 1, day: 1 }
    }
}

/// The date `n` days after `d`.
pub open spec fn spec_plus_days(d: PlainDate, n: nat) -> PlainDate
    decreases n,
{
    if n == 0 {
        d
    } else {
        spec_plus_days(spec_next_day(d), (n - 1) as nat)
    }
}

/// Days in months strictly before `m` in year `y`.
pub open spec fn days_before_month(y: int, m: int) -> int
    decreases m,
{
    if m <= 1 {
        0
    } else {
        days_before_month(y, m - 1) + days_in_month(y, m - 1)
    }
}

/// Ordinal of `d` within its year (January 1 is 1).
pub open spec fn day_of_year(d: PlainDate) -> int {
    days_before_month(d.year as int, d.month as int) + d.day
}

/// A linear measure of a date: it grows by at most one per calendar day, so
/// it bounds how far years can advance under day addition.
pub open spec fn date_measure(d: PlainDate) -> int {
    365 * d.year + day_of_year(d)
}

/// Months accumulate at most 31 days each before month `m`.
proof fn lemma_days_before_month_bounds(y: int, m: int)
    requires
        1 <= m <= 12,
    ensures
        0 <= days_before_month(y, m) <= 31 * (m - 1),
    decreases m,
{
    if m > 1 {
        lemma_days_before_month_bounds(y, m - 1);
    }
}

/// The ordinal of a valid date lies between 1 and 372.
pub proof fn lemma_day_of_year_bounds(d: PlainDate)
    requires
        date_valid(d),
    ensures
        1 <= day_of_year(d) <= 372,
{
    lemma_days_before_month_bounds(d.year as int, d.month as int);
}

/// December opens after 334 ordinary days, 335 in a leap year.
proof fn lemma_days_before_december(y: int)
    ensures
        days_before_month(y, 12) == if is_leap_year(y) {
            335int
        } else {
            334int
        },
{
    reveal_with_fuel(days_before_month, 13);
}

/// Stepping one day keeps the date valid and raises the measure by at most
/// one (exactly one inside a year; a year rollover can lower the ordinal
/// more than the year term gains only in leap years).
proof fn lemma_next_day_step(d: PlainDate)
    requires
        date_valid(d),
        d.year < 9999,
    ensures
        date_valid(spec_next_day(d)),
        date_measure(spec_next_day(d)) <= date_measure(d) + 1,
        spec_next_day(d).year >= d.year,
{
    let e = spec_next_day(d);
    if d.day < days_in_month(d.year as int, d.month as int) {
    } else if d.month < 12 {
        assert(days_before_month(d.year as int, d.month as int + 1) == days_before_month(
            d.year as int,
            d.month as int,
        ) + days_in_month(d.year as int, d.month as int));
    } else {
        lemma_days_before_december(d.year as int);
    }
}

/// Day addition composes.
pub proof fn lemma_plus_days_split(d: PlainDate, a: nat, b: nat)
    ensures
        spec_plus_days(d, a + b) == spec_plus_days(spec_plus_days(d, a), b),
    decreases a,
{
    if a > 0 {
        lemma_plus_days_split(spec_next_day(d), (a - 1) as nat, b);
    }
}

impl PlainDate {
    /// Whether this date is one the calendar admits.
    pub fn is_valid(&self) -> (r: bool)
        ensures
            r == date_valid(*self),
    {
        let dm: u8 = exec_days_in_month(self.year, self.month);
        1 <= self.year && self.year <= 9999 && 1 <= self.month && self.month <= 12 && 1
            <= self.day && self.day <= dm
    }
}

/// Number of days in a month, executable form.
pub fn exec_days_in_month(year: u32, month: u8) -> (r: u8)
    ensures
        r as int == days_in_month(year as int, month as int),
{
    if month == 2 {
        if year % 4 == 0 && (year % 100 != 0 || year % 400 == 0) {
            29
        } else {
            28
        }
    } else if month == 4 || month == 6 || month == 9 || month == 11 {
        30
    } else {
        31
    }
}

/// The day after `d`.
pub fn next_day(d: PlainDate) -> (r: PlainDate)
    requires
        date_valid(d),
        d.year < 9999,
    ensures
        r == spec_next_day(d),
        date_valid(r),
{
    proof {
        lemma_next_day_step(d);
    }
    let dm: u8 = exec_days_in_month(d.year, d.month);
    if d.day < dm {
        PlainDate { year: d.year, month: d.month, day: d.day + 1 }
    } else if d.month < 12 {
        PlainDate { year: d.year, month: d.month + 1, day: 1 }
    } else {
        PlainDate { year: d.year + 1, month: 1, day: 1 }
    }
}

/// The date `n` days after `d`.
pub fn add_days(d: PlainDate, n: u32) -> (r: PlainDate)
    requires
        date_valid(d),
        date_measure(d) + n <= 365 * 9999 + 1,
    ensures
        r == spec_plus_days(d, n as nat),
        date_valid(r),
{
    let mut cur = d;
    let mut i: u32 = 0;
    while i < n
        invariant
            i <= n,
            date_valid(d),
            date_measure(d) + n <= 365 * 9999 + 1,
            cur == spec_plus_days(d, i as nat),
            date_valid(cur),
            date_measure(cur) <= date_measure(d) + i,
        decreases n - i,
    {
        proof {
            lemma_day_of_year_bounds(cur);
            assert(cur.year < 9999);
            lemma_next_day_step(cur);
            lemma_plus_days_split(d, i as nat, 1);
            assert(spec_plus_days(spec_next_day(cur), 0) == spec_next_day(cur));
            assert(spec_plus_days(cur, 1) == spec_next_day(cur));
        }
        cur = next_day(cur);
        i = i + 1;
    }
    cur
}

/// The half-open plan window [start, start + weeks * 7 days) ends exactly
/// `7 * weeks` days after its start, for every week count a request can
/// carry and every start date with six years of calendar headroom.
pub fn window_end(start: PlainDate, weeks: u8) -> (r: PlainDate)
    requires
        date_valid(start),
        start.year + 6 <= 9999,
    ensures
        r == spec_plus_days(start, (7 * weeks) as nat),
        date_valid(r),
{
    let days: u32 = 7 * (weeks as u32);
    proof {
        lemma_day_of_year_bounds(start);
        assert(date_measure(start) + days <= 365 * 9999 + 1);
    }
    add_days(start, days)
}

/// ISO rendering `YYYY-MM-DD` of a date, zero padded.
pub open spec fn date_iso(d: PlainDate) -> Seq<char> {
    seq![
        dchar(d.year as int / 1000 % 10),
        dchar(d.year as int / 100 % 10),
        dchar(d.year as int / 10 % 10),
        dchar(d.year as int % 10),
        '-',
        dchar(d.month as int / 10 % 10),
        dchar(d.month as int % 10),
        '-',
        dchar(d.day as int / 10 % 10),
        dchar(d.day as int % 10),
    ]
}

/// Append the ISO `YYYY-MM-DD` form of `d` to `s`.
pub fn append_date_iso(s: &mut String, d: PlainDate)
    requires
        date_valid(d),
    ensures
        final(s)@ == old(s)@ + date_iso(d),
{
    append_digit(s, (d.year / 1000 % 10) as u64);
    append_digit(s, (d.year / 100 % 10) as u64);
    append_digit(s, (d.year / 10 % 10) as u64);
    append_digit(s, (d.year % 10) as u64);
    proof {
        reveal_strlit("-");
    }
    s.append("-");
    append_digit(s, (d.month / 10 % 10) as u64);
    append_digit(s, (d.month % 10) as u64);
    s.append("-");
    append_digit(s, (d.day / 10 % 10) as u64);
    append_digit(s, (d.day % 10) as u64);
    proof {
        assert(final(s)@ =~= old(s)@ + date_iso(d));
    }
}

} // verus!
