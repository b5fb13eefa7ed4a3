//! Hebrew dates, held as day numbers.
use vstd::prelude::*;

use crate::icu::{
    gregorian_days_in_month, gregorian_fields_of, gregorian_fixed, keviyah_leap,
    day_number_in_range, gregorian_day_number, hebrew_day_number, hebrew_day_of_month_of,
    hebrew_day_of_year_of, hebrew_days_in_month_of, hebrew_in_leap_year_of, hebrew_month_code_of,
    hebrew_year_is_leap, hebrew_year_of, icu_hebrew_day_number,
    icu_hebrew_day_of_month, icu_hebrew_day_of_year, icu_hebrew_days_in_month,
    icu_hebrew_in_leap_year, icu_hebrew_month_code, icu_hebrew_year, icu_hebrew_year_is_leap,
    weekday_of, MAX_DAY_NUMBER, MIN_DAY_NUMBER,
};
use crate::arithmetic::{lemma_leap_rules_agree, spec_days_in_month};
use crate::month::HebrewMonth;

verus! {

/// The days of the week.
#[derive(Debug, PartialEq, Eq, Clone, Copy, Structural)]
pub enum Weekday {
    Sunday,
    Monday,
    Tuesday,
    Wednesday,
    Thursday,
    Friday,
    Saturday,
}

/// The weekday of a day number: day number 0 is a Sunday.
pub open spec fn weekday_of_day_number(rd: int) -> Weekday {
    let r = rd % 7;
    if r == 0 {
        Weekday::Sunday
    } else if r == 1 {
        Weekday::Monday
    } else if r == 2 {
        Weekday::Tuesday
    } else if r == 3 {
        Weekday::Wednesday
    } else if r == 4 {
        Weekday::Thursday
    } else if r == 5 {
        Weekday::Friday
    } else {
        Weekday::Saturday
    }
}

/// The number of a weekday, Sunday being 1 and Shabbos 7.
pub open spec fn weekday_number(w: Weekday) -> int {
    match w {
        Weekday::Sunday => 1,
        Weekday::Monday => 2,
        Weekday::Tuesday => 3,
        Weekday::Wednesday => 4,
        Weekday::Thursday => 5,
        Weekday::Friday => 6,
        Weekday::Saturday => 7,
    }
}

/// The Hebrew month of a formatting month code of `icu_calendar`: `M05L` is
/// Adar I and `M06L` Adar II; in a year without a leap month `M06` is Adar.
pub open spec fn month_of_code(number: int, leap: bool) -> HebrewMonth {
    if leap {
        if number == 5 {
            HebrewMonth::Adar
        } else {
            HebrewMonth::AdarII
        }
    } else if number == 1 {
        HebrewMonth::Tishrei
    } else if number == 2 {
        HebrewMonth::Cheshvan
    } else if number == 3 {
        HebrewMonth::Kislev
    } else if number == 4 {
        HebrewMonth::Teves
    } else if number == 5 {
        HebrewMonth::Shevat
    } else if number == 6 {
        HebrewMonth::Adar
    } else if number == 7 {
        HebrewMonth::Nissan
    } else if number == 8 {
        HebrewMonth::Iyar
    } else if number == 9 {
        HebrewMonth::Sivan
    } else if number == 10 {
        HebrewMonth::Tammuz
    } else if number == 11 {
        HebrewMonth::Av
    } else {
        HebrewMonth::Elul
    }
}

/// The month code under which a month is built in a year: in a leap year
/// Adar is `M05L` (Adar I) and Adar II is `M06`; in other years Adar is `M06`
/// and Adar II has no code.
pub open spec fn code_of_month(m: HebrewMonth, leap_year: bool) -> Option<(u8, bool)> {
    match m {
        HebrewMonth::Tishrei => Some((1u8, false)),
        HebrewMonth::Cheshvan => Some((2u8, false)),
        HebrewMonth::Kislev => Some((3u8, false)),
        HebrewMonth::Teves => Some((4u8, false)),
        HebrewMonth::Shevat => Some((5u8, false)),
        HebrewMonth::Adar => if leap_year {
            Some((5u8, true))
        } else {
            Some((6u8, false))
        },
        HebrewMonth::AdarII => if leap_year {
            Some((6u8, false))
        } else {
            None
        },
        HebrewMonth::Nissan => Some((7u8, false)),
        HebrewMonth::Iyar => Some((8u8, false)),
        HebrewMonth::Sivan => Some((9u8, false)),
        HebrewMonth::Tammuz => Some((10u8, false)),
        HebrewMonth::Av => Some((11u8, false)),
        HebrewMonth::Elul => Some((12u8, false)),
    }
}

/// The month code under which a month is built in a year.
fn month_code(m: HebrewMonth, leap_year: bool) -> (r: Option<(u8, bool)>)
    ensures
        r == code_of_month(m, leap_year),
{
    match m {
        HebrewMonth::Tishrei => Some((1, false)),
        HebrewMonth::Cheshvan => Some((2, false)),
        HebrewMonth::Kislev => Some((3, false)),
        HebrewMonth::Teves => Some((4, false)),
        HebrewMonth::Shevat => Some((5, false)),
        HebrewMonth::Adar => {
            if leap_year {
                Some((5, true))
            } else {
                Some((6, false))
            }
        },
        HebrewMonth::AdarII => {
            if leap_year {
                Some((6, false))
            } else {
                None
            }
        },
        HebrewMonth::Nissan => Some((7, false)),
        HebrewMonth::Iyar => Some((8, false)),
        HebrewMonth::Sivan => Some((9, false)),
        HebrewMonth::Tammuz => Some((10, false)),
        HebrewMonth::Av => Some((11, false)),
        HebrewMonth::Elul => Some((12, false)),
    }
}

/// The Hebrew month of the date with the given day number.
pub open spec fn month_at(rd: int) -> HebrewMonth {
    let c = icu_hebrew_month_code(rd).unwrap();
    month_of_code(c.0 as int, c.1)
}

/// The day number of the given day of a month of a Hebrew year, as the
/// library builds it: `None` where the month is not in that year, where
/// `icu_calendar` refuses the fields, or outside the supported range.
pub open spec fn hebrew_date_spec(year: int, month: HebrewMonth, day: int) -> Option<int> {
    match icu_hebrew_year_is_leap(year) {
        Some(leap) => match code_of_month(month, leap) {
            Some(c) => match icu_hebrew_day_number(year, c.0 as int, c.1, day) {
                Some(rd) => if valid_day_number(rd as int) {
                    Some(rd as int)
                } else {
                    None
                },
                None => None,
            },
            None => None,
        },
        None => None,
    }
}

/// A date of the Hebrew calendar, held as its day number (the `RataDie` of
/// `icu_calendar`: day 1 is January 1 of year 1 of the proleptic Gregorian
/// calendar). Its year, month and day are read from `icu_calendar`.
///
/// Adding days and counting the days between two dates are done on the day
/// number: that is what `icu_calendar` does for a duration in days.
#[derive(Debug, PartialEq, Eq, Clone, Copy, Structural)]
pub struct HebrewDate {
    rd: i64,
}

impl View for HebrewDate {
    type V = int;

    closed spec fn view(&self) -> int {
        self.rd as int
    }
}

/// The day numbers that the library's dates take.
pub open spec fn valid_day_number(rd: int) -> bool {
    day_number_in_range(rd)
}

impl HebrewDate {
    #[verifier::type_invariant]
    closed spec fn inv(self) -> bool {
        day_number_in_range(self.rd as int)
    }

    /// The Hebrew year of the date.
    pub open spec fn spec_year(self) -> int {
        icu_hebrew_year(self@)
    }

    /// The Hebrew month of the date.
    pub open spec fn spec_month(self) -> HebrewMonth {
        month_at(self@)
    }

    /// The day of the month of the date.
    pub open spec fn spec_day(self) -> int {
        icu_hebrew_day_of_month(self@)
    }

    /// The day of the year of the date.
    pub open spec fn spec_day_of_year(self) -> int {
        icu_hebrew_day_of_year(self@)
    }

    /// The number of days in the month of the date.
    pub open spec fn spec_days_in_month(self) -> int {
        icu_hebrew_days_in_month(self@)
    }

    /// Whether the date is in a leap year.
    pub open spec fn spec_in_leap_year(self) -> bool {
        icu_hebrew_in_leap_year(self@)
    }

    /// The weekday of the date.
    pub open spec fn spec_weekday(self) -> Weekday {
        weekday_of_day_number(self@)
    }

    /// The date with the given day number, or `None` outside the range that
    /// the library's dates use.
    pub fn from_day_number(rd: i64) -> (r: Option<HebrewDate>)
        ensures
            r is Some <==> valid_day_number(rd as int),
            r matches Some(d) ==> d@ == rd,
    {
        if MIN_DAY_NUMBER <= rd && rd <= MAX_DAY_NUMBER {
            Some(HebrewDate { rd })
        } else {
            None
        }
    }

    /// The date's day number.
    pub fn day_number(&self) -> (r: i64)
        ensures
            r == self@,
            valid_day_number(r as int),
    {
        proof {
            use_type_invariant(self);
        }
        self.rd
    }

    /// The Hebrew date of a Gregorian date, or `None` where the Gregorian
    /// fields are not a date of a year in `-9999..=9999`.
    pub fn from_gregorian_date(year: i32, month: u8, day: u8) -> (r: Option<HebrewDate>)
        ensures
            r is Some <==> (-9999 <= year <= 9999 && 1 <= month <= 12 && 1 <= day
                <= gregorian_days_in_month(year as int, month as int)),
            r matches Some(d) ==> d@ == gregorian_fixed(year as int, month as int, day as int),
    {
        match gregorian_day_number(year, month, day) {
            Some(rd) => HebrewDate::from_day_number(rd),
            None => None,
        }
    }

    /// The Gregorian date of this date, as (year, month, day).
    pub fn gregorian_date(&self) -> (r: (i32, u8, u8))
        ensures
            1 <= r.1 <= 12,
            1 <= r.2 <= gregorian_days_in_month(r.0 as int, r.1 as int),
            gregorian_fixed(r.0 as int, r.1 as int, r.2 as int) == self@,
    {
        gregorian_fields_of(self.day_number())
    }

    /// The date of the given day of a month of a Hebrew year, or `None` where
    /// the month is not in that year (Adar II of a year without a leap month)
    /// or `icu_calendar` refuses the fields.
    pub fn from_hebrew_date(year: i32, month: HebrewMonth, day: u8) -> (r: Option<HebrewDate>)
        ensures
            r is Some <==> hebrew_date_spec(year as int, month, day as int) is Some,
            r matches Some(d) ==> hebrew_date_spec(year as int, month, day as int) == Some(d@),
            r is Some ==> -9999 <= year <= 9999,
            r matches Some(d) ==> d.spec_year() == year && d.spec_month() == month && d.spec_day()
                == day,
            r matches Some(d) ==> day >= 1 && (hebrew_date_spec(year as int, month, 1) matches Some(
                first,
            ) ==> first == d@ - (day - 1)),
            -9999 <= year <= 9999 && (month != HebrewMonth::AdarII || keviyah_leap(year as int)) && 1
                <= day <= 29 ==> r is Some,
            month == HebrewMonth::AdarII && !keviyah_leap(year as int) ==> r is None,
            -9999 <= year <= 9999 && (month != HebrewMonth::AdarII || keviyah_leap(year as int)) && day
                == 30 ==> (r is Some <==> (code_of_month(month, keviyah_leap(year as int)) matches Some(
                c,
            ) && icu_hebrew_day_number(year as int, c.0 as int, c.1, 1) matches Some(first)
                && icu_hebrew_days_in_month(first as int) == 30)),
            r is Some ==> 1 <= day <= 30,
            1 <= year <= 9999 && (month != HebrewMonth::AdarII || keviyah_leap(year as int)) && month
                != HebrewMonth::Cheshvan && month != HebrewMonth::Kislev && 1 <= day ==> (r is Some
                <==> day <= spec_days_in_month(year as int, month)),
    {
        proof {
            if year >= 1 {
                lemma_leap_rules_agree(year as int);
            }
        }
        let leap = match hebrew_year_is_leap(year) {
            Some(l) => l,
            None => return None,
        };
        let code = match month_code(month, leap) {
            Some(c) => c,
            None => return None,
        };
        match hebrew_day_number(year, code.0, code.1, day) {
            Some(rd) => HebrewDate::from_day_number(rd),
            None => None,
        }
    }

    /// The date `days` days after this one (before it, for a negative
    /// count), or `None` outside the range that the library's dates use.
    pub fn add_days(&self, days: i32) -> (r: Option<HebrewDate>)
        ensures
            r is Some <==> valid_day_number(self@ + days),
            r matches Some(d) ==> d@ == self@ + days,
    {
        proof {
            use_type_invariant(self);
        }
        HebrewDate::from_day_number(self.rd + days as i64)
    }

    /// The number of days from this date to `other` (negative when `other`
    /// comes first).
    pub fn days_until(&self, other: &HebrewDate) -> (r: i64)
        ensures
            r == other@ - self@,
    {
        proof {
            use_type_invariant(self);
            use_type_invariant(other);
        }
        other.rd - self.rd
    }

    /// Whether this date comes before `other`.
    pub fn is_before(&self, other: &HebrewDate) -> (r: bool)
        ensures
            r == (self@ < other@),
    {
        self.rd < other.rd
    }

    /// Whether this date comes after `other`.
    pub fn is_after(&self, other: &HebrewDate) -> (r: bool)
        ensures
            r == (self@ > other@),
    {
        self.rd > other.rd
    }

    /// The Hebrew year of the date.
    pub fn extended_year(&self) -> (r: i32)
        ensures
            r == self.spec_year(),
            -1040000 <= r <= 1040000,
    {
        proof {
            use_type_invariant(self);
        }
        hebrew_year_of(self.rd)
    }

    /// The Hebrew month of the date.
    pub fn hebrew_month(&self) -> (r: HebrewMonth)
        ensures
            r == self.spec_month(),
    {
        proof {
            use_type_invariant(self);
        }
        match hebrew_month_code_of(self.rd) {
            Some((number, leap)) => {
                if leap {
                    if number == 5 {
                        HebrewMonth::Adar
                    } else {
                        HebrewMonth::AdarII
                    }
                } else if number == 1 {
                    HebrewMonth::Tishrei
                } else if number == 2 {
                    HebrewMonth::Cheshvan
                } else if number == 3 {
                    HebrewMonth::Kislev
                } else if number == 4 {
                    HebrewMonth::Teves
                } else if number == 5 {
                    HebrewMonth::Shevat
                } else if number == 6 {
                    HebrewMonth::Adar
                } else if number == 7 {
                    HebrewMonth::Nissan
                } else if number == 8 {
                    HebrewMonth::Iyar
                } else if number == 9 {
                    HebrewMonth::Sivan
                } else if number == 10 {
                    HebrewMonth::Tammuz
                } else if number == 11 {
                    HebrewMonth::Av
                } else {
                    HebrewMonth::Elul
                }
            },
            None => HebrewMonth::Tishrei,
        }
    }

    /// The day of the month of the date.
    pub fn day_of_month(&self) -> (r: u8)
        ensures
            r == self.spec_day(),
            1 <= r <= 30,
    {
        proof {
            use_type_invariant(self);
        }
        hebrew_day_of_month_of(self.rd)
    }

    /// The day of the year of the date (the first of Tishrei is 1).
    pub fn day_of_year(&self) -> (r: u16)
        ensures
            r == self.spec_day_of_year(),
    {
        proof {
            use_type_invariant(self);
        }
        hebrew_day_of_year_of(self.rd)
    }

    /// The number of days in the month of the date.
    pub fn days_in_month(&self) -> (r: u8)
        ensures
            r == self.spec_days_in_month(),
            r == 29 || r == 30,
    {
        proof {
            use_type_invariant(self);
        }
        hebrew_days_in_month_of(self.rd)
    }

    /// Whether the date is in a leap year.
    pub fn is_in_leap_year(&self) -> (r: bool)
        ensures
            r == self.spec_in_leap_year(),
    {
        proof {
            use_type_invariant(self);
        }
        hebrew_in_leap_year_of(self.rd)
    }

    /// The weekday of the date.
    pub fn day_of_week(&self) -> (r: Weekday)
        ensures
            r == self.spec_weekday(),
    {
        proof {
            use_type_invariant(self);
        }
        weekday_of(self.rd)
    }

    /// The weekday of the date as a number, Sunday being 1 and Shabbos 7.
    pub fn day_of_week_number(&self) -> (r: i32)
        ensures
            r == weekday_number(self.spec_weekday()),
            1 <= r <= 7,
    {
        match self.day_of_week() {
            Weekday::Sunday => 1,
            Weekday::Monday => 2,
            Weekday::Tuesday => 3,
            Weekday::Wednesday => 4,
            Weekday::Thursday => 5,
            Weekday::Friday => 6,
            Weekday::Saturday => 7,
        }
    }
}

/// Seven days after any date comes the same weekday, and each day's weekday
/// follows the one before it.
pub proof fn lemma_weekday_cycle(rd: int)
    ensures
        weekday_of_day_number(rd + 7) == weekday_of_day_number(rd),
        weekday_number(weekday_of_day_number(rd + 1)) == weekday_number(weekday_of_day_number(rd))
            % 7 + 1,
{
}

} // verus!
