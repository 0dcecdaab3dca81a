//! Calendar dates and UTC timestamps.

use vstd::prelude::*;

use crate::number;

verus! {

/// The first second that a timestamp can hold: the start of the year -262143.
pub const MIN_SECONDS: i64 = -8_334_601_228_800;

/// The last second that a timestamp can hold: the end of the year 262142.
pub const MAX_SECONDS: i64 = 8_210_266_876_799;

/// A date of the proleptic Gregorian calendar.
#[derive(Debug, Clone, Copy, PartialEq, Eq, Structural)]
pub struct Date {
    pub year: i32,
    pub month: u32,
    pub day: u32,
}

/// A moment in UTC: seconds since the Unix epoch, and nanoseconds within the second.
#[derive(Debug, Clone, Copy, PartialEq, Eq, Structural)]
pub struct Timestamp {
    seconds: i64,
    nanos: u32,
}

pub open spec fn is_leap_year(year: int) -> bool {
    year % 4 == 0 && (year % 100 != 0 || year % 400 == 0)
}

pub open spec fn days_in_month(year: int, month: int) -> int {
    if month == 2 {
        if is_leap_year(year) {
            29
        } else {
            28
        }
    } else if month == 4 || month == 6 || month == 9 || month == 11 {
        30
    } else {
        31
    }
}

/// Days of the year before the first day of `month`.
pub open spec fn days_before_month(year: int, month: int) -> int {
    let leap: int = if month > 2 && is_leap_year(year) {
        1
    } else {
        0
    };
    let plain: int = if month <= 1 {
        0
    } else if month == 2 {
        31
    } else if month == 3 {
        59
    } else if month == 4 {
        90
    } else if month == 5 {
        120
    } else if month == 6 {
        151
    } else if month == 7 {
        181
    } else if month == 8 {
        212
    } else if month == 9 {
        243
    } else if month == 10 {
        273
    } else if month == 11 {
        304
    } else {
        334
    };
    plain + leap
}

/// Days from the start of the year 1 to the start of `year`.
pub open spec fn days_before_year(year: int) -> int {
    let past = year - 1;
    365 * past + past / 4 - past / 100 + past / 400
}

impl Date {
    /// Whether the fields name a day of the calendar.
    pub open spec fn valid(self) -> bool {
        &&& 1 <= self.month <= 12
        &&& 1 <= self.day <= days_in_month(self.year as int, self.month as int)
    }

    /// The day's number, where 1970-01-01 is day 0.
    pub open spec fn epoch_day(self) -> int {
        days_before_year(self.year as int) + days_before_month(self.year as int, self.month as int)
            + self.day - 1 - 719162
    }

    /// Whether `self` comes before `other`, by year, then month, then day.
    pub open spec fn before(self, other: Date) -> bool {
        ||| self.year < other.year
        ||| self.year == other.year && self.month < other.month
        ||| self.year == other.year && self.month == other.month && self.day < other.day
    }

    /// The text of the date, such as `2026-04-05`. A year outside 0 to 9999 has a sign.
    pub open spec fn text(self) -> Seq<char> {
        year_text(self.year as int) + seq!['-'] + number::padded_text(self.month as nat, 2) + seq!['-']
            + number::padded_text(self.day as nat, 2)
    }

    /// Whether this date comes before `other`.
    pub fn is_before(self, other: Date) -> (earlier: bool)
        ensures
            earlier == self.before(other),
    {
        self.year < other.year || (self.year == other.year && (self.month < other.month || (
        self.month == other.month && self.day < other.day)))
    }

    /// The date as text.
    pub fn to_text(self) -> (out: String)
        ensures
            out@ == self.text(),
    {
        let mut out = render_year(self.year);
        out.push('-');
        let month = number::padded(self.month as u128, 2);
        out.append(month.as_str());
        out.push('-');
        let day = number::padded(self.day as u128, 2);
        out.append(day.as_str());
        assert(out@ =~= self.text());
        out
    }

    /// The first second after the end of this day.
    pub fn end_of_day(self) -> (seconds: i64)
        ensures
            seconds == (self.epoch_day() + 1) * 86400,
    {
        let past: i64 = self.year as i64 - 1;
        let years: i64 = 365 * past + leap_days(past);
        let months: i64 = before_month(self.year, self.month);
        let day: i64 = years + months + self.day as i64 - 719162;
        assert(day == self.epoch_day() + 1);
        day * 86400
    }
}

/// The year of a date's text: four digits, with a sign outside 0 to 9999.
pub open spec fn year_text(year: int) -> Seq<char> {
    if 0 <= year <= 9999 {
        number::padded_text(year as nat, 4)
    } else if year < 0 {
        seq!['-'] + number::padded_text((-year) as nat, 4)
    } else {
        seq!['+'] + number::padded_text(year as nat, 4)
    }
}

fn render_year(year: i32) -> (out: String)
    ensures
        out@ == year_text(year as int),
{
    if 0 <= year && year <= 9999 {
        return number::padded(year as u128, 4);
    }
    let mut out = String::new();
    let size: u128 = if year < 0 {
        out.push('-');
        (-(year as i128)) as u128
    } else {
        out.push('+');
        year as u128
    };
    let digits = number::padded(size, 4);
    out.append(digits.as_str());
    assert(out@ =~= year_text(year as int));
    out
}

/// The leap days in the years from 1 to `past`, counted backwards where `past` is negative.
fn leap_days(past: i64) -> (days: i64)
    requires
        -2_400_000_000 <= past <= 2_400_000_000,
    ensures
        days == past as int / 4 - past as int / 100 + past as int / 400,
{
    let shifted: i64 = past + 2_400_000_000;
    proof {
        vstd::arithmetic::div_mod::lemma_hoist_over_denominator(past as int, 600_000_000, 4);
        vstd::arithmetic::div_mod::lemma_hoist_over_denominator(past as int, 24_000_000, 100);
        vstd::arithmetic::div_mod::lemma_hoist_over_denominator(past as int, 6_000_000, 400);
    }
    (shifted / 4 - 600_000_000) - (shifted / 100 - 24_000_000) + (shifted / 400 - 6_000_000)
}

fn leap(year: i32) -> (yes: bool)
    ensures
        yes == is_leap_year(year as int),
{
    let shifted: i64 = year as i64 + 2_400_000_000;
    proof {
        let y = year as int;
        vstd::arithmetic::div_mod::lemma_mod_multiples_vanish(600_000_000, y, 4);
        vstd::arithmetic::div_mod::lemma_mod_multiples_vanish(24_000_000, y, 100);
        vstd::arithmetic::div_mod::lemma_mod_multiples_vanish(6_000_000, y, 400);
    }
    shifted % 4 == 0 && (shifted % 100 != 0 || shifted % 400 == 0)
}

fn before_month(year: i32, month: u32) -> (days: i64)
    ensures
        days == days_before_month(year as int, month as int),
{
    let extra: i64 = if month > 2 && leap(year) {
        1
    } else {
        0
    };
    let plain: i64 = match month {
        0 | 1 => 0,
        2 => 31,
        3 => 59,
        4 => 90,
        5 => 120,
        6 => 151,
        7 => 181,
        8 => 212,
        9 => 243,
        10 => 273,
        11 => 304,
        _ => 334,
    };
    plain + extra
}

/// The date of the day that holds the second `seconds`.
pub open spec fn civil(seconds: int) -> Date {
    choose|date: Date| #[trigger] date.valid() && date.epoch_day() == seconds / 86400
}

/// The fraction of a second in text: nothing, or a point and three, six or nine digits.
pub open spec fn fraction_text(nanos: nat) -> Seq<char> {
    if nanos == 0 {
        Seq::<char>::empty()
    } else if nanos % 1_000_000 == 0 {
        seq!['.'] + number::padded_text(nanos / 1_000_000, 3)
    } else if nanos % 1_000 == 0 {
        seq!['.'] + number::padded_text(nanos / 1_000, 6)
    } else {
        seq!['.'] + number::padded_text(nanos, 9)
    }
}

/// The text of a moment, such as `2026-04-05T10:20:30+00:00`. A leap second has the number 60.
pub open spec fn moment_text(seconds: int, nanos: nat) -> Seq<char> {
    let of_day = (seconds % 86400) as nat;
    let leap: nat = nanos / 1_000_000_000;
    civil(seconds).text() + seq!['T'] + number::padded_text(of_day / 3600, 2) + seq![':']
        + number::padded_text(of_day / 60 % 60, 2) + seq![':'] + number::padded_text(
        of_day % 60 + leap,
        2,
    ) + fraction_text(nanos % 1_000_000_000) + "+00:00"@
}

/// What `chrono::DateTime::parse_from_rfc3339` reads from a text: seconds and nanoseconds in UTC, or
/// the message of its error.
pub uninterp spec fn rfc3339_value(value: Seq<char>) -> Result<(int, int), Seq<char>>;

impl Timestamp {
    /// The range of moments: whole seconds within the calendar's years, nanoseconds below one
    /// second. A leap second is the last second of its minute with a second one on top.
    pub open spec fn in_range(seconds: int, nanos: int) -> bool {
        &&& MIN_SECONDS <= seconds <= MAX_SECONDS
        &&& 0 <= nanos < 1_000_000_000 || (seconds % 60 == 59 && 0 <= nanos < 2_000_000_000)
    }

    #[verifier::type_invariant]
    spec fn well_formed(self) -> bool {
        Timestamp::in_range(self.seconds as int, self.nanos as int)
    }

    /// Seconds since the Unix epoch.
    pub closed spec fn unix_seconds(self) -> int {
        self.seconds as int
    }

    /// Nanoseconds within the second.
    pub closed spec fn subsec_nanos(self) -> int {
        self.nanos as int
    }

    /// The calendar date of the moment.
    pub open spec fn civil_date(self) -> Date {
        civil(self.unix_seconds())
    }

    /// The moment as text.
    pub open spec fn text(self) -> Seq<char> {
        moment_text(self.unix_seconds(), self.subsec_nanos() as nat)
    }

    /// Whether the year of the moment has four digits.
    pub open spec fn four_digit_year(self) -> bool {
        -62_167_219_200 <= self.unix_seconds() <= 253_402_300_799
    }

    /// Whether `value` is the text of this moment, in a year of four digits.
    pub open spec fn has_text(self, value: Seq<char>) -> bool {
        &&& self.four_digit_year()
        &&& Timestamp::in_range(self.unix_seconds(), self.subsec_nanos())
        &&& value == self.text()
    }

    /// The moment `seconds` and `nanos` after the Unix epoch, where it is in range.
    pub fn new(seconds: i64, nanos: u32) -> (moment: Option<Timestamp>)
        ensures
            match moment {
                Some(t) => t.unix_seconds() == seconds && t.subsec_nanos() == nanos
                    && Timestamp::in_range(seconds as int, nanos as int),
                None => !Timestamp::in_range(seconds as int, nanos as int),
            },
    {
        if !(MIN_SECONDS <= seconds && seconds <= MAX_SECONDS) {
            return None;
        }
        let shifted: i64 = seconds + 8_334_601_228_800;
        proof {
            vstd::arithmetic::div_mod::lemma_mod_multiples_vanish(138_910_020_480, seconds as int, 60);
        }
        if nanos < 1_000_000_000 || (nanos < 2_000_000_000 && shifted % 60 == 59) {
            Some(Timestamp { seconds, nanos })
        } else {
            None
        }
    }

    pub fn seconds(self) -> (seconds: i64)
        ensures
            seconds == self.unix_seconds(),
            MIN_SECONDS <= seconds <= MAX_SECONDS,
    {
        proof {
            use_type_invariant(&self);
        }
        self.seconds
    }

    pub fn nanos(self) -> (nanos: u32)
        ensures
            nanos == self.subsec_nanos(),
    {
        proof {
            use_type_invariant(&self);
        }
        self.nanos
    }

    /// The calendar date of the moment.
    pub fn date(self) -> (date: Date)
        ensures
            date == self.civil_date(),
            date.valid(),
            date.epoch_day() == self.unix_seconds() / 86400,
    {
        proof {
            use_type_invariant(&self);
        }
        let date = calendar_date(self.seconds);
        proof {
            one_date_per_day(date, civil(self.seconds as int));
        }
        date
    }

    /// The moment as text.
    pub fn to_rfc3339(self) -> (out: String)
        ensures
            out@ == self.text(),
    {
        proof {
            use_type_invariant(&self);
        }
        render_rfc3339(self.seconds, self.nanos)
    }

    /// Reads a moment from text.
    pub fn from_rfc3339(value: &str) -> (moment: Result<Timestamp, String>)
        ensures
            match moment {
                Ok(t) => rfc3339_value(value@) == Ok::<(int, int), Seq<char>>(
                    (t.unix_seconds(), t.subsec_nanos()),
                ),
                Err(message) => rfc3339_value(value@) == Err::<(int, int), Seq<char>>(message@),
            },
            forall|t: Timestamp| #[trigger]
                t.has_text(value@) ==> (moment is Ok && moment->Ok_0.unix_seconds() == t.unix_seconds()
                    && moment->Ok_0.subsec_nanos() == t.subsec_nanos()),
    {
        match parse_rfc3339(value) {
            Ok((seconds, nanos)) => Ok(Timestamp { seconds, nanos }),
            Err(message) => Err(message),
        }
    }
}

/// `chrono::DateTime::from_timestamp`, `date_naive` and the fields of the date: the calendar date
/// of the day that holds a second. Every second between the two bounds has one.
#[verifier::external_body]
fn calendar_date(seconds: i64) -> (date: Date)
    requires
        MIN_SECONDS <= seconds <= MAX_SECONDS,
    ensures
        date.valid(),
        date.epoch_day() == seconds as int / 86400,
{
    let day = chrono::DateTime::from_timestamp(seconds, 0).unwrap().date_naive();
    Date {
        year: chrono::Datelike::year(&day),
        month: chrono::Datelike::month(&day),
        day: chrono::Datelike::day(&day),
    }
}

/// `chrono::DateTime::to_rfc3339` in UTC: date, `T`, time of day, fraction where there is one, and
/// the offset `+00:00`.
#[verifier::external_body]
fn render_rfc3339(seconds: i64, nanos: u32) -> (out: String)
    requires
        Timestamp::in_range(seconds as int, nanos as int),
    ensures
        out@ == moment_text(seconds as int, nanos as nat),
{
    chrono::DateTime::from_timestamp(seconds, nanos).unwrap().to_rfc3339()
}

/// `chrono::DateTime::parse_from_rfc3339`, brought to UTC: seconds since the Unix epoch, and
/// nanoseconds, or the message of its error. The text of a moment with a four-digit year reads back
/// as that moment.
#[verifier::external_body]
fn parse_rfc3339(value: &str) -> (moment: Result<(i64, u32), String>)
    ensures
        match moment {
            Ok((seconds, nanos)) => rfc3339_value(value@) == Ok::<(int, int), Seq<char>>(
                (seconds as int, nanos as int),
            ) && Timestamp::in_range(seconds as int, nanos as int),
            Err(message) => rfc3339_value(value@) == Err::<(int, int), Seq<char>>(message@),
        },
        forall|t: Timestamp| #[trigger]
            t.has_text(value@) ==> (moment is Ok && moment->Ok_0.0 == t.unix_seconds()
                && moment->Ok_0.1 == t.subsec_nanos()),
{
    match chrono::DateTime::parse_from_rfc3339(value) {
        Ok(moment) => Ok((moment.timestamp(), moment.timestamp_subsec_nanos())),
        Err(error) => Err(error.to_string()),
    }
}

/// A moment is known by its seconds and nanoseconds.
pub proof fn moments_are_equal(a: Timestamp, b: Timestamp)
    requires
        a.unix_seconds() == b.unix_seconds(),
        a.subsec_nanos() == b.subsec_nanos(),
    ensures
        a == b,
{
}

/// Years follow each other: a later year starts no earlier.
proof fn years_in_order(first: int, second: int)
    requires
        first <= second,
    ensures
        days_before_year(first) <= days_before_year(second),
{
}

/// A quotient grows by one exactly at the multiples of the divisor.
proof fn quotients_grow_at_multiples(n: int, d: int)
    requires
        d > 1,
    ensures
        n / d - (n - 1) / d == if n % d == 0 {
            1int
        } else {
            0int
        },
{
    let q = n / d;
    let r = n % d;
    vstd::arithmetic::div_mod::lemma_fundamental_div_mod(n, d);
    if r == 0 {
        assert(d * q == (q - 1) * d + d) by (nonlinear_arith);
        vstd::arithmetic::div_mod::lemma_fundamental_div_mod_converse(n - 1, d, q - 1, d - 1);
    } else {
        assert(d * q == q * d) by (nonlinear_arith);
        vstd::arithmetic::div_mod::lemma_fundamental_div_mod_converse(n - 1, d, q, r - 1);
    }
}

/// A year has 365 days, or 366 where it is a leap year.
pub proof fn year_length(year: int)
    ensures
        days_before_year(year + 1) == days_before_year(year) + 365 + if is_leap_year(year) {
            1int
        } else {
            0int
        },
{
    quotients_grow_at_multiples(year, 4);
    quotients_grow_at_multiples(year, 100);
    quotients_grow_at_multiples(year, 400);
}

/// The order of dates by year, month and day is the order of their day numbers.
pub proof fn date_order_is_day_order(a: Date, b: Date)
    requires
        a.valid(),
        b.valid(),
    ensures
        a.before(b) <==> a.epoch_day() < b.epoch_day(),
{
    if a.before(b) {
        earlier_date_has_smaller_day(a, b);
    } else if b.before(a) {
        earlier_date_has_smaller_day(b, a);
    }
}

proof fn earlier_date_has_smaller_day(a: Date, b: Date)
    requires
        a.valid(),
        b.valid(),
        a.before(b),
    ensures
        a.epoch_day() < b.epoch_day(),
{
    if a.year < b.year {
        years_in_order(a.year + 1, b.year as int);
        year_length(a.year as int);
    }
}

/// A day number belongs to one date only.
pub proof fn one_date_per_day(a: Date, b: Date)
    requires
        a.valid(),
        b.valid(),
        a.epoch_day() == b.epoch_day(),
    ensures
        a == b,
{
    date_order_is_day_order(a, b);
    date_order_is_day_order(b, a);
}

/// Months follow each other: each starts when the days of the one before are over, and the year is over
/// with December.
pub proof fn months_follow_each_other(year: int, month: int)
    requires
        1 <= month <= 12,
    ensures
        days_before_month(year, 1) == 0,
        month < 12 ==> days_before_month(year, month + 1) == days_before_month(year, month)
            + days_in_month(year, month),
        days_before_year(year) + days_before_month(year, 12) + days_in_month(year, 12)
            == days_before_year(year + 1),
{
    year_length(year);
}

/// The first day of all is the first of January 1970, and each date is a day later than the one before.
pub proof fn days_are_counted_from_1970(date: Date, next: Date)
    requires
        date.valid(),
        next.valid(),
        date.year == next.year,
        date.month == next.month,
        next.day == date.day + 1,
    ensures
        (Date { year: 1970, month: 1, day: 1 }).epoch_day() == 0,
        next.epoch_day() == date.epoch_day() + 1,
{
}

} // verus!
