//! Calendar dates as day numbers, with the calendar itself left to `chrono`.

use vstd::prelude::*;

#[allow(unused_imports)]
use crate::text::decimal;
#[allow(unused_imports)]
use crate::ui::opt_view;

verus! {

/// The day number of the first representable date, counting January 1 of year 1 as one.
pub const MIN_DAY: i32 = -95_746_129;

/// The day number of the last representable date.
pub const MAX_DAY: i32 = 95_745_399;

/// The first representable year.
pub const MIN_YEAR: i32 = -262_143;

/// The last representable year.
pub const MAX_YEAR: i32 = 262_142;

/// The most days a span can hold.
pub const MAX_SPAN_DAYS: i64 = 106_751_991_167;

/// Dates on cards.
pub const CARD_DATE: &'static str = "%b %-d, %Y";

/// Times on snapshots.
pub const SNAPSHOT_TIME: &'static str = "%Y-%m-%d %H:%M UTC";

/// A leap year of the Gregorian calendar.
pub open spec fn leap(year: int) -> bool {
    year % 4 == 0 && (year % 100 != 0 || year % 400 == 0)
}

/// The days of a month.
pub open spec fn month_days(year: int, month: int) -> int {
    if month == 2 {
        if leap(year) {
            29
        } else {
            28
        }
    } else if month == 4 || month == 6 || month == 9 || month == 11 {
        30
    } else {
        31
    }
}

/// The days of a year before a month.
pub open spec fn days_before_month(year: int, month: int) -> int
    decreases month,
{
    if month <= 1 {
        0
    } else {
        days_before_month(year, month - 1) + month_days(year, month - 1)
    }
}

/// The days before a year, counting January 1 of year 1 as day one.
pub open spec fn days_before_year(year: int) -> int {
    let y = year - 1;
    365 * y + y / 4 - y / 100 + y / 400
}

/// The day number of a calendar date, counting January 1 of year 1 as one.
pub open spec fn day_number(year: int, month: int, day: int) -> int {
    days_before_year(year) + days_before_month(year, month) + day
}

/// Whether a calendar date exists and is representable.
pub open spec fn is_date(year: int, month: int, day: int) -> bool {
    MIN_YEAR <= year <= MAX_YEAR && 1 <= month <= 12 && 1 <= day <= month_days(year, month)
}

/// `chrono::NaiveDate::from_ymd_opt` with `num_days_from_ce`: the day number of a date of
/// the proleptic Gregorian calendar, or nothing for a date that does not exist or lies
/// outside the representable years.
#[verifier::external_body]
fn ymd_to_day(year: i32, month: u32, day: u32) -> (r: Option<i32>)
    ensures
        r is Some <==> is_date(year as int, month as int, day as int),
        r matches Some(n) ==> n == day_number(year as int, month as int, day as int) && MIN_DAY <= n
            <= MAX_DAY,
{
    chrono::NaiveDate::from_ymd_opt(year, month, day).map(|d| chrono::Datelike::num_days_from_ce(&d))
}

/// `chrono::NaiveDate::checked_add_signed` with a span of whole days: the day that many days
/// on, or nothing outside the representable dates. A span beyond `MAX_SPAN_DAYS` cannot be
/// built.
#[verifier::external_body]
fn add_span(day: i32, days: i64) -> (r: Option<i32>)
    requires
        MIN_DAY <= day <= MAX_DAY,
        -MAX_SPAN_DAYS <= days <= MAX_SPAN_DAYS,
    ensures
        r == (if MIN_DAY <= day + days <= MAX_DAY {
            Some((day + days) as i32)
        } else {
            None
        }),
{
    chrono::NaiveDate::from_num_days_from_ce_opt(day).unwrap().checked_add_signed(
        chrono::TimeDelta::days(days),
    ).map(|d| chrono::Datelike::num_days_from_ce(&d))
}

/// `chrono::NaiveDate::checked_add_days`: the day that many days on, or nothing past the
/// representable dates.
#[verifier::external_body]
fn add_days(day: i32, days: u64) -> (r: Option<i32>)
    requires
        MIN_DAY <= day <= MAX_DAY,
    ensures
        r == (if day + days <= MAX_DAY {
            Some((day + days) as i32)
        } else {
            None
        }),
{
    chrono::NaiveDate::from_num_days_from_ce_opt(day).unwrap().checked_add_days(
        chrono::Days::new(days),
    ).map(|d| chrono::Datelike::num_days_from_ce(&d))
}

/// A year, month and day.
pub struct Calendar {
    pub year: int,
    pub month: int,
    pub day: int,
}

/// Whether a day number belongs to a calendar date.
pub open spec fn falls_on(number: int, c: Calendar) -> bool {
    is_date(c.year, c.month, c.day) && day_number(c.year, c.month, c.day) == number
}

/// The calendar date of a day number.
pub open spec fn calendar(number: int) -> Calendar {
    choose|c: Calendar| falls_on(number, c)
}

/// The first three letters of a month's name.
pub open spec fn month_words(month: int) -> Seq<char> {
    seq![
        "Jan"@,
        "Feb"@,
        "Mar"@,
        "Apr"@,
        "May"@,
        "Jun"@,
        "Jul"@,
        "Aug"@,
        "Sep"@,
        "Oct"@,
        "Nov"@,
        "Dec"@,
    ][month - 1]
}

/// A number in decimal, with zeros before it up to a width.
pub open spec fn zero_padded(n: nat, width: nat) -> Seq<char> {
    let digits = decimal(n);
    if digits.len() < width {
        Seq::new((width - digits.len()) as nat, |i: int| '0') + digits
    } else {
        digits
    }
}

/// A year in at least four digits, with a sign before the first year and after the last that
/// four digits can hold.
pub open spec fn year_words(year: int) -> Seq<char> {
    if year < 0 {
        "-"@ + zero_padded((-year) as nat, 4)
    } else if year > 9999 {
        "+"@ + decimal(year as nat)
    } else {
        zero_padded(year as nat, 4)
    }
}

/// A date as it reads on a card.
pub open spec fn date_words(number: int) -> Seq<char> {
    let c = calendar(number);
    month_words(c.month) + " "@ + decimal(c.day as nat) + ", "@ + year_words(c.year)
}

/// `chrono::NaiveDate::format` with [`CARD_DATE`]: the month's name cut to three letters, the
/// day, and the year in at least four digits. Another format is not spoken of: a malformed
/// one, or one that asks for a time of day, panics.
#[verifier::external_body]
fn format_day(day: i32, fmt: &str) -> (r: String)
    requires
        MIN_DAY <= day <= MAX_DAY,
        fmt@ == CARD_DATE@,
    ensures
        r@ == date_words(day as int),
{
    chrono::NaiveDate::from_num_days_from_ce_opt(day).unwrap().format(fmt).to_string()
}

/// The day number of January 1, 1970.
pub const EPOCH_DAY: i32 = 719_163;

/// The microseconds of a day.
pub const MICROS_PER_DAY: i64 = 86_400_000_000;

/// The microseconds of a minute.
pub const MICROS_PER_MINUTE: i64 = 60_000_000;

/// The day number of a UTC moment, given in microseconds since 1970.
pub open spec fn day_of_moment(micros: i64) -> int {
    EPOCH_DAY + micros as int / MICROS_PER_DAY as int
}

/// A UTC moment as it reads on a snapshot; absent for one outside the representable dates.
pub open spec fn stamp_words(micros: i64) -> Option<Seq<char>> {
    let number = day_of_moment(micros);
    let minute = (micros as int % MICROS_PER_DAY as int) / MICROS_PER_MINUTE as int;
    if MIN_DAY <= number <= MAX_DAY {
        let c = calendar(number);
        Some(
            year_words(c.year) + "-"@ + zero_padded(c.month as nat, 2) + "-"@ + zero_padded(
                c.day as nat,
                2,
            ) + " "@ + zero_padded((minute / 60) as nat, 2) + ":"@ + zero_padded(
                (minute % 60) as nat,
                2,
            ) + " UTC"@,
        )
    } else {
        None
    }
}

/// `chrono::DateTime::format` with [`SNAPSHOT_TIME`], on a UTC moment given in microseconds
/// since the Unix epoch: the date, its parts padded with zeros, and the hour and minute.
/// Another format is not spoken of: a malformed one panics.
#[verifier::external_body]
pub(crate) fn format_stamp(micros: i64, fmt: &str) -> (r: Option<String>)
    requires
        fmt@ == SNAPSHOT_TIME@,
    ensures
        opt_view(r) == stamp_words(micros),
{
    chrono::DateTime::from_timestamp_micros(micros).map(|t| t.format(fmt).to_string())
}

/// The days of a year.
pub open spec fn year_days(year: int) -> int {
    if leap(year) {
        366
    } else {
        365
    }
}

proof fn lemma_years_follow(first: int, second: int)
    requires
        first < second,
    ensures
        days_before_year(first) + year_days(first) <= days_before_year(second),
    decreases second - first,
{
    let before = second - 1;
    assert(days_before_year(second) == days_before_year(before) + year_days(before));
    if first < before {
        lemma_years_follow(first, before);
    }
}

proof fn lemma_months_follow(year: int, first: int, second: int)
    requires
        1 <= first < second,
    ensures
        days_before_month(year, first) + month_days(year, first) <= days_before_month(year, second),
    decreases second,
{
    if first < second - 1 {
        lemma_months_follow(year, first, second - 1);
    }
}

proof fn lemma_day_is_in_its_year(year: int, month: int, day: int)
    requires
        1 <= month <= 12,
        1 <= day <= month_days(year, month),
    ensures
        1 <= days_before_month(year, month) + day <= year_days(year),
{
    reveal_with_fuel(days_before_month, 13);
    assert(days_before_month(year, 13) == year_days(year)) by {
        reveal_with_fuel(days_before_month, 14);
    }
    lemma_months_follow(year, month, 13);
    if month > 1 {
        lemma_months_follow(year, 1, month);
    }
}

/// Every representable day number is that of a calendar date.
pub proof fn law_every_day_is_a_date(number: int)
    requires
        MIN_DAY <= number <= MAX_DAY,
    ensures
        falls_on(number, calendar(number)),
    decreases number - MIN_DAY,
{
    if number == MIN_DAY {
        assert(falls_on(number, Calendar { year: MIN_YEAR as int, month: 1, day: 1 }));
    } else {
        law_every_day_is_a_date(number - 1);
        let c = calendar(number - 1);
        if c.day < month_days(c.year, c.month) {
            assert(falls_on(number, Calendar { day: c.day + 1, ..c }));
        } else if c.month < 12 {
            assert(falls_on(number, Calendar { year: c.year, month: c.month + 1, day: 1 }));
        } else {
            assert(days_before_month(c.year, 12) + 31 == year_days(c.year)) by {
                reveal_with_fuel(days_before_month, 13);
            }
            assert(days_before_year(c.year + 1) == days_before_year(c.year) + year_days(c.year));
            assert(falls_on(number, Calendar { year: c.year + 1, month: 1, day: 1 }));
        }
    }
}

/// No two calendar dates share a day number, so a date reads as the one it was made of.
pub proof fn law_a_date_is_the_one_it_was_made_of(year: int, month: int, day: int)
    requires
        is_date(year, month, day),
    ensures
        calendar(day_number(year, month, day)) == (Calendar { year, month, day }),
{
    let number = day_number(year, month, day);
    let made = Calendar { year, month, day };
    assert(falls_on(number, made));
    let c = calendar(number);
    assert(falls_on(number, c));
    lemma_day_is_in_its_year(year, month, day);
    lemma_day_is_in_its_year(c.year, c.month, c.day);
    if c.year < year {
        lemma_years_follow(c.year, year);
    } else if year < c.year {
        lemma_years_follow(year, c.year);
    }
    if c.month < month {
        lemma_months_follow(year, c.month, month);
    } else if month < c.month {
        lemma_months_follow(year, month, c.month);
    }
}

/// A calendar date.
#[derive(Debug, Clone, Copy, PartialEq, Eq, PartialOrd, Ord, Hash, Structural)]
pub struct Date {
    number: i32,
}

impl Date {
    #[verifier::type_invariant]
    spec fn representable(self) -> bool {
        MIN_DAY <= self.number <= MAX_DAY
    }

    /// The day number, counting January 1 of year 1 as one.
    pub closed spec fn day(self) -> i32 {
        self.number
    }

    /// The date as it reads on a card.
    pub open spec fn words(self) -> Seq<char> {
        date_words(self.day() as int)
    }

    /// The date with this day number, where it is representable.
    pub fn from_day(number: i32) -> (r: Option<Date>)
        ensures
            r is Some <==> MIN_DAY <= number <= MAX_DAY,
            r matches Some(d) ==> d.day() == number,
    {
        if MIN_DAY <= number && number <= MAX_DAY {
            Some(Date { number })
        } else {
            None
        }
    }

    /// The date of a year, month and day, where there is one.
    pub fn from_ymd_opt(year: i32, month: u32, day: u32) -> (r: Option<Date>)
        ensures
            r is Some <==> is_date(year as int, month as int, day as int),
            r matches Some(d) ==> d.day() == day_number(year as int, month as int, day as int),
    {
        match ymd_to_day(year, month, day) {
            Some(number) => Some(Date { number }),
            None => None,
        }
    }

    /// The day number, counting January 1 of year 1 as one.
    pub fn number(&self) -> (r: i32)
        ensures
            r == self.day(),
            MIN_DAY <= r <= MAX_DAY,
    {
        proof {
            use_type_invariant(self);
        }
        self.number
    }

    /// The days from this date to `later`; negative where that lies behind.
    pub fn days_until(&self, later: Date) -> (r: i64)
        ensures
            r == later.day() - self.day(),
    {
        proof {
            use_type_invariant(self);
            use_type_invariant(&later);
        }
        later.number as i64 - self.number as i64
    }

    /// The date this many days on, back in time for a negative number; nothing outside the
    /// representable dates.
    pub fn checked_add_signed(&self, days: i64) -> (r: Option<Date>)
        requires
            -MAX_SPAN_DAYS <= days <= MAX_SPAN_DAYS,
        ensures
            r is Some <==> MIN_DAY <= self.day() + days <= MAX_DAY,
            r matches Some(d) ==> d.day() == self.day() + days,
    {
        proof {
            use_type_invariant(self);
        }
        match add_span(self.number, days) {
            Some(number) => Some(Date { number }),
            None => None,
        }
    }

    /// The date this many days on; nothing past the representable dates.
    pub fn checked_add_days(&self, days: u64) -> (r: Option<Date>)
        ensures
            r is Some <==> self.day() + days <= MAX_DAY,
            r matches Some(d) ==> d.day() == self.day() + days,
    {
        proof {
            use_type_invariant(self);
        }
        match add_days(self.number, days) {
            Some(number) => Some(Date { number }),
            None => None,
        }
    }

    /// The date as it reads on a card.
    pub fn card_text(&self) -> (r: String)
        ensures
            r@ == self.words(),
    {
        proof {
            use_type_invariant(self);
        }
        format_day(self.number, CARD_DATE)
    }
}

/// Days are counted one by one: the day after is one more, within a month, into the next
/// month and into the next year.
pub proof fn law_days_are_counted_one_by_one(year: int, month: int, day: int)
    requires
        is_date(year, month, day),
    ensures
        day < month_days(year, month) ==> day_number(year, month, day + 1) == day_number(
            year,
            month,
            day,
        ) + 1,
        day == month_days(year, month) && month < 12 ==> day_number(year, month + 1, 1)
            == day_number(year, month, day) + 1,
        day == month_days(year, month) && month == 12 ==> day_number(year + 1, 1, 1) == day_number(
            year,
            month,
            day,
        ) + 1,
        day_number(1, 1, 1) == 1,
        day_number(1970, 1, 1) == EPOCH_DAY,
{
    reveal_with_fuel(days_before_month, 14);
}

/// A date that was moved by some days lies that many days away, and moving it back gives it
/// again.
pub proof fn law_moving_a_date_is_undone(
    from: &Date,
    days: i64,
    there: Option<Date>,
    away: i64,
)
    requires
        call_ensures(Date::checked_add_signed, (from, days), there),
        there is Some,
        call_ensures(Date::days_until, (from, there->0), away),
    ensures
        away == days,
        there->0.day() - days == from.day(),
{
}

/// A date reads as the month's first letters, the day and the year it was made of.
pub proof fn law_a_date_reads_as_it_was_made(year: int, month: int, day: int)
    requires
        is_date(year, month, day),
    ensures
        date_words(day_number(year, month, day)) == (if month == 1 {
            "Jan"@
        } else if month == 2 {
            "Feb"@
        } else if month == 3 {
            "Mar"@
        } else if month == 4 {
            "Apr"@
        } else if month == 5 {
            "May"@
        } else if month == 6 {
            "Jun"@
        } else if month == 7 {
            "Jul"@
        } else if month == 8 {
            "Aug"@
        } else if month == 9 {
            "Sep"@
        } else if month == 10 {
            "Oct"@
        } else if month == 11 {
            "Nov"@
        } else {
            "Dec"@
        }) + " "@ + decimal(day as nat) + ", "@ + year_words(year),
{
    law_a_date_is_the_one_it_was_made_of(year, month, day);
}

/// A moment reads as its day and its minute of that day, in two digits each.
pub proof fn law_a_moment_reads_as_its_day_and_minute(
    year: int,
    month: int,
    day: int,
    hour: int,
    minute: int,
    micros: i64,
)
    requires
        is_date(year, month, day),
        MIN_DAY <= day_number(year, month, day) <= MAX_DAY,
        0 <= hour < 24,
        0 <= minute < 60,
        micros == (day_number(year, month, day) - 719_163) * 86_400_000_000 + hour * 3_600_000_000
            + minute * 60_000_000,
    ensures
        stamp_words(micros) == Some(
            year_words(year) + "-"@ + zero_padded(month as nat, 2) + "-"@ + zero_padded(
                day as nat,
                2,
            ) + " "@ + zero_padded(hour as nat, 2) + ":"@ + zero_padded(minute as nat, 2) + " UTC"@,
        ),
{
    law_a_date_is_the_one_it_was_made_of(year, month, day);
    let n = day_number(year, month, day) - 719_163;
    let within = hour * 3_600_000_000 + minute * 60_000_000;
    assert(0 <= within < 86_400_000_000);
    assert(micros as int / 86_400_000_000 == n && micros as int % 86_400_000_000 == within) by {
        vstd::arithmetic::div_mod::lemma_fundamental_div_mod_converse(
            micros as int,
            86_400_000_000,
            n,
            within,
        );
    }
    assert(within / 60_000_000 == hour * 60 + minute);
}

/// A number is padded with zeros to its width and never cut.
pub proof fn law_numbers_are_padded_not_cut(n: nat, width: nat)
    ensures
        decimal(n).len() >= width ==> zero_padded(n, width) == decimal(n),
        decimal(n).len() < width ==> zero_padded(n, width).len() == width && zero_padded(
            n,
            width,
        ).skip(width - decimal(n).len()) == decimal(n) && zero_padded(n, width)[0] == '0',
        0 <= n <= 9999 ==> year_words(n as int) == zero_padded(n, 4),
{
    if decimal(n).len() < width {
        assert(zero_padded(n, width).skip(width - decimal(n).len()) =~= decimal(n));
    }
}

/// Leap years come every four years, but for centuries that four hundred does not divide.
pub proof fn law_leap_years(year: int)
    ensures
        leap(year) <==> (year % 4 == 0 && year % 100 != 0) || year % 400 == 0,
        month_days(year, 2) == if leap(year) {
            29int
        } else {
            28int
        },
        days_before_year(year) - days_before_year(year - 1) == if leap(year - 1) {
            366int
        } else {
            365int
        },
{
    assert(leap(year) <==> (year % 4 == 0 && year % 100 != 0) || year % 400 == 0) by {
        if year % 400 == 0 {
            assert(year % 4 == 0);
        }
    }
    let before = year - 1;
    assert(days_before_year(year) == days_before_year(before) + year_days(before));
}

} // verus!
