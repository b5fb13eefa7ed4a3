//! The calls into `icu_calendar`: converting between day numbers (the
//! `RataDie` of `icu_calendar`) and the fields of Hebrew and Gregorian dates.
//!
//! Every item here is trusted: its contract is what `icu_calendar` 2.4 shows
//! in its source, and is not proved.
#![allow(deprecated)]

use vstd::prelude::*;

use icu_calendar::cal::Hebrew;
use icu_calendar::types::{MonthCode, RataDie};
use icu_calendar::{Date, Gregorian};

use crate::date::{weekday_of_day_number, Weekday};

verus! {

/// The smallest day number that the library's dates use: that of 1 January
/// of year -999999 of the proleptic Gregorian calendar, the first day of the
/// range `VALID_RD_RANGE` in which `Date::from_rata_die` builds a date
/// without clamping the day number.
pub const MIN_DAY_NUMBER: i64 = -365242499;

/// The largest day number that the library's dates use: that of 31 December
/// of year 999999, the last day of `VALID_RD_RANGE`.
pub const MAX_DAY_NUMBER: i64 = 365242134;

/// A day number inside the range that the library's dates use.
pub open spec fn day_number_in_range(rd: int) -> bool {
    MIN_DAY_NUMBER <= rd <= MAX_DAY_NUMBER
}

/// Whether a year of the proleptic Gregorian calendar is a leap year, as
/// `calendrical_calculations::gregorian::is_leap_year` decides it.
pub open spec fn gregorian_leap(year: int) -> bool {
    if year % 25 != 0 {
        year % 4 == 0
    } else {
        year % 16 == 0
    }
}

/// The number of days of a Gregorian month.
pub open spec fn gregorian_days_in_month(year: int, month: int) -> int {
    if month == 2 {
        if gregorian_leap(year) {
            29
        } else {
            28
        }
    } else if month == 4 || month == 6 || month == 9 || month == 11 {
        30
    } else {
        31
    }
}

/// The number of days of a Gregorian year before the given month starts.
pub open spec fn gregorian_days_before_month(year: int, month: int) -> int {
    let l: int = if gregorian_leap(year) {
        1
    } else {
        0
    };
    if month == 1 {
        0
    } else if month == 2 {
        31
    } else if month == 3 {
        59 + l
    } else if month == 4 {
        90 + l
    } else if month == 5 {
        120 + l
    } else if month == 6 {
        151 + l
    } else if month == 7 {
        181 + l
    } else if month == 8 {
        212 + l
    } else if month == 9 {
        243 + l
    } else if month == 10 {
        273 + l
    } else if month == 11 {
        304 + l
    } else {
        334 + l
    }
}

/// The day number of a Gregorian date, as
/// `calendrical_calculations::gregorian::fixed_from_gregorian` counts it:
/// 1 January of year 1 is day 1.
pub open spec fn gregorian_fixed(year: int, month: int, day: int) -> int {
    let p = year - 1;
    365 * p + p / 4 - p / 100 + p / 400 + gregorian_days_before_month(year, month) + day
}

/// The day number of a Gregorian date, or `None` where `icu_calendar`
/// refuses the fields: a year outside `-9999..=9999`, a month outside 1 to
/// 12, or a day outside the month.
pub open spec fn icu_gregorian_day_number(year: int, month: int, day: int) -> Option<i64> {
    if -9999 <= year <= 9999 && 1 <= month <= 12 && 1 <= day <= gregorian_days_in_month(year, month) {
        Some(gregorian_fixed(year, month, day) as i64)
    } else {
        None
    }
}

/// Whether a Hebrew year is a leap year, as
/// `calendrical_calculations::hebrew_keviyah` decides it: the year's
/// remainder by 19 (taken as `rem_euclid`) is 0, 3, 6, 8, 11, 14 or 17.
pub open spec fn keviyah_leap(year: int) -> bool {
    let r = year % 19;
    r == 0 || r == 3 || r == 6 || r == 8 || r == 11 || r == 14 || r == 17
}

/// Whether `code` names a month of a Hebrew year: `M01` to `M12`, or
/// `M05L` (Adar I) in a leap year.
pub open spec fn month_code_in_year(month_number: int, leap_month: bool, leap_year: bool) -> bool {
    (!leap_month && 1 <= month_number <= 12) || (leap_month && month_number == 5 && leap_year)
}

/// The day number of a Hebrew date given by year, month code and day, as
/// `icu_calendar` computes it (`None` where it refuses the fields).
pub uninterp spec fn icu_hebrew_day_number(year: int, month_number: int, leap_month: bool, day: int) -> Option<i64>;

/// Whether `icu_calendar` counts the Hebrew year as a leap year, read from
/// the first of Tishrei of that year: `None` outside `-9999..=9999`, where
/// it refuses to build that date.
pub open spec fn icu_hebrew_year_is_leap(year: int) -> Option<bool> {
    if -9999 <= year <= 9999 {
        Some(keviyah_leap(year))
    } else {
        None
    }
}

/// The Hebrew year of a day number.
pub uninterp spec fn icu_hebrew_year(rd: int) -> int;

/// The formatting month code of the Hebrew month of a day number, as
/// (number, leap).
pub uninterp spec fn icu_hebrew_month_code(rd: int) -> Option<(u8, bool)>;

/// The day of the Hebrew month of a day number.
pub uninterp spec fn icu_hebrew_day_of_month(rd: int) -> int;

/// The day of the Hebrew year of a day number.
pub uninterp spec fn icu_hebrew_day_of_year(rd: int) -> int;

/// The number of days in the Hebrew month of a day number.
pub uninterp spec fn icu_hebrew_days_in_month(rd: int) -> int;

/// Whether the Hebrew year of a day number is a leap year.
pub open spec fn icu_hebrew_in_leap_year(rd: int) -> bool {
    keviyah_leap(icu_hebrew_year(rd))
}

/// Calls `Date::try_new_gregorian` and then `Date::to_rata_die`. The
/// contract states what the source shows: `ArithmeticDate::from_year_month_day`
/// checks the year against `CONSTRUCTOR_YEAR_RANGE` (`-9999..=9999`), the
/// month and the day against the month's length, and the day number is
/// `fixed_from_gregorian` of the fields.
#[verifier::external_body]
pub(crate) fn gregorian_day_number(year: i32, month: u8, day: u8) -> (r: Option<i64>)
    ensures
        r == icu_gregorian_day_number(year as int, month as int, day as int),
{
    Date::try_new_gregorian(year, month, day).ok().map(|d| d.to_rata_die().to_i64_date())
}

/// Calls `Date::from_rata_die` with the `Gregorian` calendar and reads the
/// date's extended year, month number and day. The contract states what
/// the documented round trip of `from_rata_die` with `to_rata_die` gives:
/// fields of a Gregorian date whose day number, by `fixed_from_gregorian`,
/// is the one given.
#[verifier::external_body]
pub(crate) fn gregorian_fields_of(rd: i64) -> (r: (i32, u8, u8))
    requires
        day_number_in_range(rd as int),
    ensures
        1 <= r.1 <= 12,
        1 <= r.2 <= gregorian_days_in_month(r.0 as int, r.1 as int),
        gregorian_fixed(r.0 as int, r.1 as int, r.2 as int) == rd,
{
    let d = Date::from_rata_die(RataDie::new(rd), Gregorian);
    (d.extended_year(), d.month().ordinal, d.day_of_month().0)
}

/// Calls `Date::try_new_from_codes` with the era `am`, the month code built
/// from `month_number` and `leap_month`, and the `Hebrew` calendar, then
/// `Date::to_rata_die`. The contract names the result, and states that a
/// date is built only for a year in `-9999..=9999`, the range that
/// `ArithmeticDate::from_input_year_month_code_day` checks.
///
/// It also states what the date of the day number reads back, as
/// `Date::from_rata_die` is documented to round trip with
/// `Date::to_rata_die`: the year and the day that were given, the leap-ness
/// of that year (as `Hebrew::is_in_leap_year` reads it from the year
/// alone), and the formatting code of the month that was given, which
/// `Hebrew::month` turns into `M06L` for `M06` of a leap year. And it
/// states what `from_input_year_month_code_day` and
/// `Hebrew::to_rata_die_inner` show: the day is at least 1, and the first
/// day of the same month has the day number `day - 1` days before.
///
/// Last, it states when a date is built: `from_input_year_month_code_day`
/// accepts a year in `-9999..=9999`, a month that `Hebrew::ordinal_from_month`
/// finds in the year (`M01` to `M12`, or `M05L` in a leap year), and a day
/// from 1 to the month's length, which `Keviyah::month_len` gives as 29 or
/// 30. Such a date lies in `VALID_RD_RANGE`, as the source notes.
/// `Keviyah::month_len` fixes that length for every month but Cheshvan
/// (`M02`) and Kislev (`M03`): a month whose number is odd has 30 days and
/// one whose number is even 29 (Adar I, `M05L`, has 30), so a 30th day is
/// built exactly in the months of odd number. For Cheshvan and Kislev the
/// length comes from the year's keviyah, and the contract ties a 30th day
/// to the length that `icu_calendar` gives the month.
#[verifier::external_body]
pub(crate) fn hebrew_day_number(year: i32, month_number: u8, leap_month: bool, day: u8) -> (r:
    Option<i64>)
    ensures
        r == icu_hebrew_day_number(year as int, month_number as int, leap_month, day as int),
        r is Some ==> -9999 <= year <= 9999,
        r matches Some(rd) ==> icu_hebrew_year(rd as int) == year && icu_hebrew_day_of_month(
            rd as int,
        ) == day && icu_hebrew_year_is_leap(year as int) == Some(
            icu_hebrew_in_leap_year(rd as int),
        ) && icu_hebrew_month_code(rd as int) == Some(
            if month_number == 6 && !leap_month && icu_hebrew_in_leap_year(rd as int) {
                (6u8, true)
            } else {
                (month_number, leap_month)
            },
        ),
        r matches Some(rd) ==> day >= 1 && icu_hebrew_day_number(
            year as int,
            month_number as int,
            leap_month,
            1,
        ) == Some((rd - (day - 1)) as i64),
        r matches Some(rd) ==> day_number_in_range(rd as int) && month_code_in_year(
            month_number as int,
            leap_month,
            keviyah_leap(year as int),
        ) && day <= 30,
        -9999 <= year <= 9999 && month_code_in_year(
            month_number as int,
            leap_month,
            keviyah_leap(year as int),
        ) && 1 <= day <= 29 ==> r is Some,
        -9999 <= year <= 9999 && month_code_in_year(
            month_number as int,
            leap_month,
            keviyah_leap(year as int),
        ) && day == 30 ==> (r is Some <==> (icu_hebrew_day_number(
            year as int,
            month_number as int,
            leap_month,
            1,
        ) matches Some(first) && icu_hebrew_days_in_month(first as int) == 30)),
        -9999 <= year <= 9999 && month_code_in_year(
            month_number as int,
            leap_month,
            keviyah_leap(year as int),
        ) && day == 30 && month_number != 2 && month_number != 3 ==> (r is Some <==> month_number
            % 2 == 1),
{
    let code = if leap_month {
        MonthCode::new_leap(month_number)
    } else {
        MonthCode::new_normal(month_number)
    }?;
    Date::try_new_from_codes(Some("am"), year, code, day, Hebrew).ok().map(
        |d| d.to_rata_die().to_i64_date(),
    )
}

/// Calls `Date::try_new_from_codes` for the first of Tishrei (`M01`) of the
/// year, then `Date::is_in_leap_year`. The contract states what the source
/// shows: the date is built exactly for a year in `-9999..=9999`, the range
/// that `try_new_from_codes` accepts, and `Hebrew::is_in_leap_year` reads
/// the year's keviyah, which is a leap one exactly when
/// `MetonicCycleType::for_h_year` finds a leap year of the 19-year cycle.
#[verifier::external_body]
pub(crate) fn hebrew_year_is_leap(year: i32) -> (r: Option<bool>)
    ensures
        r == icu_hebrew_year_is_leap(year as int),
{
    let code = MonthCode::new_normal(1)?;
    Date::try_new_from_codes(Some("am"), year, code, 1, Hebrew).ok().map(|d| d.is_in_leap_year())
}

/// Calls `Date::from_rata_die` with the `Hebrew` calendar, then
/// `Date::extended_year`. The contract names the result, and bounds it by
/// `GENEROUS_YEAR_RANGE` (`-1_040_000..=1_040_000`), which the source of
/// `calendar_arithmetic` documents as wider than the years of every date
/// that `from_rata_die` can build.
#[verifier::external_body]
pub(crate) fn hebrew_year_of(rd: i64) -> (r: i32)
    requires
        day_number_in_range(rd as int),
    ensures
        r as int == icu_hebrew_year(rd as int),
        -1040000 <= r <= 1040000,
{
    Date::from_rata_die(RataDie::new(rd), Hebrew).extended_year()
}

/// Calls `Date::from_rata_die` with the `Hebrew` calendar, then reads the
/// formatting code of `Date::month` with `MonthCode::parsed`. The contract
/// names the result and states what the source of `Hebrew::month` and
/// `Hebrew::month_from_ordinal` shows of it: the code parses, its number is
/// 1 to 12, and only 5 (Adar I) and 6 (Adar II of a leap year) are leap.
#[verifier::external_body]
pub(crate) fn hebrew_month_code_of(rd: i64) -> (r: Option<(u8, bool)>)
    requires
        day_number_in_range(rd as int),
    ensures
        r == icu_hebrew_month_code(rd as int),
        r is Some,
        1 <= r.unwrap().0 <= 12,
        r.unwrap().1 ==> (r.unwrap().0 == 5 || r.unwrap().0 == 6),
{
    Date::from_rata_die(RataDie::new(rd), Hebrew).month().formatting_code.parsed()
}

/// Calls `Date::from_rata_die` with the `Hebrew` calendar, then
/// `Date::day_of_month`. The contract names the result and states what the
/// source of `Hebrew::from_rata_die` and `Keviyah::month_len` shows of it:
/// a day of a month of 29 or 30 days.
#[verifier::external_body]
pub(crate) fn hebrew_day_of_month_of(rd: i64) -> (r: u8)
    requires
        day_number_in_range(rd as int),
    ensures
        r as int == icu_hebrew_day_of_month(rd as int),
        1 <= r <= 30,
{
    Date::from_rata_die(RataDie::new(rd), Hebrew).day_of_month().0
}

/// Calls `Date::from_rata_die` with the `Hebrew` calendar, then
/// `Date::day_of_year`. The contract names the result.
#[verifier::external_body]
pub(crate) fn hebrew_day_of_year_of(rd: i64) -> (r: u16)
    requires
        day_number_in_range(rd as int),
    ensures
        r as int == icu_hebrew_day_of_year(rd as int),
{
    Date::from_rata_die(RataDie::new(rd), Hebrew).day_of_year().0
}

/// Calls `Date::from_rata_die` with the `Hebrew` calendar, then
/// `Date::days_in_month`. The contract names the result and states what the
/// source of `Keviyah::month_len` shows of it: a month has 29 or 30 days.
#[verifier::external_body]
pub(crate) fn hebrew_days_in_month_of(rd: i64) -> (r: u8)
    requires
        day_number_in_range(rd as int),
    ensures
        r as int == icu_hebrew_days_in_month(rd as int),
        r == 29 || r == 30,
{
    Date::from_rata_die(RataDie::new(rd), Hebrew).days_in_month()
}

/// Calls `Date::from_rata_die` with the `Hebrew` calendar, then
/// `Date::is_in_leap_year`: whether the keviyah of the date's year is a
/// leap one, which the contract states through the year's remainder by 19.
#[verifier::external_body]
pub(crate) fn hebrew_in_leap_year_of(rd: i64) -> (r: bool)
    requires
        day_number_in_range(rd as int),
    ensures
        r == icu_hebrew_in_leap_year(rd as int),
{
    Date::from_rata_die(RataDie::new(rd), Hebrew).is_in_leap_year()
}

/// Calls `Date::from_rata_die` with the `Hebrew` calendar, then
/// `Date::weekday`. Its source computes the weekday from the day number
/// alone: the day number's remainder modulo 7, where day number 0 is a
/// Sunday. The contract states exactly that.
#[verifier::external_body]
pub(crate) fn weekday_of(rd: i64) -> (r: Weekday)
    requires
        day_number_in_range(rd as int),
    ensures
        r == weekday_of_day_number(rd as int),
{
    match Date::from_rata_die(RataDie::new(rd), Hebrew).weekday() {
        icu_calendar::types::Weekday::Sunday => Weekday::Sunday,
        icu_calendar::types::Weekday::Monday => Weekday::Monday,
        icu_calendar::types::Weekday::Tuesday => Weekday::Tuesday,
        icu_calendar::types::Weekday::Wednesday => Weekday::Wednesday,
        icu_calendar::types::Weekday::Thursday => Weekday::Thursday,
        icu_calendar::types::Weekday::Friday => Weekday::Friday,
        icu_calendar::types::Weekday::Saturday => Weekday::Saturday,
    }
}

} // verus!
