//! Jewish holidays and the rules that place them in the calendar.
use vstd::prelude::*;

use crate::arithmetic::{
    get_hebrew_elapsed_days, is_kislev_short, spec_elapsed_days, spec_is_kislev_short, tmod,
    MAX_HEBREW_YEAR, MIN_HEBREW_YEAR,
};
use crate::date::{month_at, weekday_of_day_number, HebrewDate, Weekday};
use crate::icu::{
    icu_hebrew_day_of_month, icu_hebrew_day_of_year, icu_hebrew_in_leap_year, icu_hebrew_year,
};
use crate::month::HebrewMonth;

verus! {

/// Jewish holidays and other days of note in the Hebrew calendar: festivals,
/// fasts, modern Israeli days and the like.
#[derive(Debug, PartialEq, Eq, Clone, Copy, Structural)]
pub enum Holiday {
    ErevPesach,
    Pesach,
    CholHamoed,
    PesachSheni,
    ErevShavuos,
    Shavuos,
    SeventeenthOfTammuz,
    TishahBav,
    TuBav,
    ErevRoshHashana,
    RoshHashana,
    FastOfGedalyah,
    ErevYomKippur,
    YomKippur,
    ErevSuccos,
    Succos,
    HoshanaRabbah,
    SheminiAtzeres,
    SimchasTorah,
    Chanukah,
    TenthOfTeves,
    TuBshvat,
    FastOfEsther,
    Purim,
    ShushanPurim,
    PurimKatan,
    RoshChodesh,
    YomHaShoah,
    YomHazikaron,
    YomHaatzmaut,
    YomYerushalayim,
    LagBomer,
    ShushanPurimKatan,
    IsruChag,
    YomKippurKatan,
    Behab,
    FastOfTheFirstborn,
    CountOfTheOmer,
    BirchasHachamah,
    MacharHachodesh,
    ShabbosMevarchim,
}

/// The fields of a date that the holiday rules read.
#[derive(Debug, PartialEq, Eq, Clone, Copy, Structural)]
pub struct DateFields {
    /// The Hebrew year.
    pub year: i32,
    /// The Hebrew month.
    pub month: HebrewMonth,
    /// The day of the month.
    pub day: u8,
    /// The weekday.
    pub weekday: Weekday,
    /// Whether the year is a leap year (as `icu_calendar` counts it).
    pub in_leap_year: bool,
    /// The day of the year, the first of Tishrei being 1.
    pub day_of_year: u16,
}

/// The fields of the date with the given day number.
pub open spec fn fields_at(rd: int) -> DateFields {
    DateFields {
        year: icu_hebrew_year(rd) as i32,
        month: month_at(rd),
        day: icu_hebrew_day_of_month(rd) as u8,
        weekday: weekday_of_day_number(rd),
        in_leap_year: icu_hebrew_in_leap_year(rd),
        day_of_year: icu_hebrew_day_of_year(rd) as u16,
    }
}

/// The fields of a date.
pub open spec fn fields_of(date: HebrewDate) -> DateFields {
    fields_at(date@)
}

/// Kislev has 29 days in the year; `false` for a year whose arithmetic the
/// library does not support.
pub open spec fn kislev_short_in(year: int) -> bool {
    MIN_HEBREW_YEAR < year < MAX_HEBREW_YEAR && spec_is_kislev_short(year)
}

/// Whether the holiday falls on a date with the given fields, in Israel or
/// outside it.
pub open spec fn holiday_on(h: Holiday, f: DateFields, in_israel: bool) -> bool {
    let m = f.month;
    let d = f.day;
    let w = f.weekday;
    let leap = f.in_leap_year;
    match h {
        Holiday::ErevPesach => m == HebrewMonth::Nissan && d == 14,
        Holiday::Pesach => m == HebrewMonth::Nissan && (d == 15 || d == 21 || (!in_israel && (d == 16 || d == 22))),
        Holiday::CholHamoed => (m == HebrewMonth::Nissan || m == HebrewMonth::Tishrei) && ((in_israel && d == 16) || (17 <= d && d <= 20)),
        Holiday::PesachSheni => m == HebrewMonth::Iyar && d == 14,
        Holiday::ErevShavuos => m == HebrewMonth::Sivan && d == 5,
        Holiday::Shavuos => m == HebrewMonth::Sivan && (d == 6 || (!in_israel && d == 7)),
        Holiday::SeventeenthOfTammuz => m == HebrewMonth::Tammuz && ((d == 17 && w != Weekday::Saturday) || (d == 18 && w == Weekday::Sunday)),
        Holiday::TishahBav => m == HebrewMonth::Av && ((w == Weekday::Sunday && d == 10) || (w != Weekday::Saturday && d == 9)),
        Holiday::TuBav => m == HebrewMonth::Av && d == 15,
        Holiday::ErevRoshHashana => m == HebrewMonth::Elul && d == 29,
        Holiday::RoshHashana => m == HebrewMonth::Tishrei && (d == 1 || d == 2),
        Holiday::FastOfGedalyah => m == HebrewMonth::Tishrei && ((d == 3 && w != Weekday::Saturday) || (d == 4 && w == Weekday::Sunday)),
        Holiday::ErevYomKippur => m == HebrewMonth::Tishrei && d == 9,
        Holiday::YomKippur => m == HebrewMonth::Tishrei && d == 10,
        Holiday::ErevSuccos => m == HebrewMonth::Tishrei && d == 14,
        Holiday::Succos => m == HebrewMonth::Tishrei && (d == 15 || (!in_israel && d == 16)),
        Holiday::HoshanaRabbah => m == HebrewMonth::Tishrei && d == 21,
        Holiday::SheminiAtzeres => m == HebrewMonth::Tishrei && d == 22,
        Holiday::SimchasTorah => m == HebrewMonth::Tishrei && d == 23 && !in_israel,
        Holiday::Chanukah => (m == HebrewMonth::Kislev && d >= 25) || (m == HebrewMonth::Teves && d <= if kislev_short_in(f.year as int) { 3int } else { 2int }),
        Holiday::TenthOfTeves => m == HebrewMonth::Teves && d == 10,
        Holiday::TuBshvat => m == HebrewMonth::Shevat && d == 15,
        Holiday::FastOfEsther => (m == HebrewMonth::AdarII || (!leap && m == HebrewMonth::Adar)) && (((d == 11 || d == 12) && w == Weekday::Thursday) || (d == 13 && !(w == Weekday::Friday || w == Weekday::Saturday))),
        Holiday::Purim => ((m == HebrewMonth::Adar && !leap) || m == HebrewMonth::AdarII) && d == 14,
        Holiday::ShushanPurim => ((m == HebrewMonth::Adar && !leap) || m == HebrewMonth::AdarII) && d == 15,
        Holiday::PurimKatan => m == HebrewMonth::Adar && leap && d == 14,
        Holiday::RoshChodesh => (d == 1 && m != HebrewMonth::Tishrei) || d == 30,
        Holiday::YomHaShoah => m == HebrewMonth::Nissan && ((d == 26 && w == Weekday::Thursday) || (d == 28 && w == Weekday::Monday) || (d == 27 && w != Weekday::Sunday && w != Weekday::Friday)),
        Holiday::YomHazikaron => m == HebrewMonth::Iyar && ((d == 4 && w == Weekday::Tuesday) || ((d == 3 || d == 2) && w == Weekday::Wednesday) || (d == 5 && w == Weekday::Monday)),
        Holiday::YomHaatzmaut => m == HebrewMonth::Iyar && ((d == 5 && w == Weekday::Wednesday) || ((d == 4 || d == 3) && w == Weekday::Thursday) || (d == 6 && w == Weekday::Tuesday)),
        Holiday::YomYerushalayim => m == HebrewMonth::Iyar && d == 28,
        Holiday::LagBomer => m == HebrewMonth::Iyar && d == 18,
        Holiday::ShushanPurimKatan => m == HebrewMonth::Adar && leap && d == 15,
        Holiday::IsruChag => (in_israel && ((m == HebrewMonth::Nissan && d == 22) || (m == HebrewMonth::Sivan && d == 7) || (m == HebrewMonth::Tishrei && d == 23))) || (!in_israel && ((m == HebrewMonth::Nissan && d == 23) || (m == HebrewMonth::Sivan && d == 8) || (m == HebrewMonth::Tishrei && d == 24))),
        Holiday::YomKippurKatan => !(m == HebrewMonth::Elul || m == HebrewMonth::Tishrei || m == HebrewMonth::Kislev || m == HebrewMonth::Nissan) && ((d == 29 && w != Weekday::Friday && w != Weekday::Saturday) || ((d == 27 || d == 28) && w == Weekday::Thursday)),
        Holiday::Behab => (m == HebrewMonth::Cheshvan || m == HebrewMonth::Iyar) && ((w == Weekday::Monday && d > 4 && d < 18) || (w == Weekday::Thursday && d > 7 && d < 14)),
        Holiday::FastOfTheFirstborn => m == HebrewMonth::Nissan && ((d == 14 && w != Weekday::Saturday) || (d == 12 && w == Weekday::Thursday)),
        Holiday::CountOfTheOmer => (m == HebrewMonth::Nissan && d >= 16) || m == HebrewMonth::Iyar || (m == HebrewMonth::Sivan && d < 6),
        Holiday::BirchasHachamah => MIN_HEBREW_YEAR < f.year <= MAX_HEBREW_YEAR && tmod(spec_elapsed_days(f.year as int) + f.day_of_year, 10227) == 172,
        Holiday::MacharHachodesh => w == Weekday::Saturday && (d == 30 || d == 29),
        Holiday::ShabbosMevarchim => w == Weekday::Saturday && d >= 23 && d <= 29 && m != HebrewMonth::Elul,
    }
}

/// Whether work is forbidden on the holiday.
pub open spec fn spec_is_assur_bemelacha(h: Holiday) -> bool {
    h == Holiday::Pesach || h == Holiday::Shavuos || h == Holiday::Succos || h
        == Holiday::SheminiAtzeres || h == Holiday::SimchasTorah || h == Holiday::RoshHashana || h
        == Holiday::YomKippur
}

/// Whether the holiday is a modern Israeli one.
pub open spec fn spec_is_modern_holiday(h: Holiday) -> bool {
    h == Holiday::YomHaShoah || h == Holiday::YomHazikaron || h == Holiday::YomHaatzmaut || h
        == Holiday::YomYerushalayim
}

/// Whether the holiday is a fast day.
pub open spec fn spec_is_fast_day(h: Holiday) -> bool {
    h == Holiday::FastOfGedalyah || h == Holiday::FastOfEsther || h == Holiday::TishahBav || h
        == Holiday::TenthOfTeves || h == Holiday::SeventeenthOfTammuz || h == Holiday::YomKippur
}

/// The Hebrew name of a holiday.
pub open spec fn holiday_name(h: Holiday) -> Seq<char> {
    match h {
        Holiday::ErevPesach => "ערב פסח"@,
        Holiday::Pesach => "פסח"@,
        Holiday::CholHamoed => "חול המועד"@,
        Holiday::PesachSheni => "פסח שני"@,
        Holiday::ErevShavuos => "ערב שבועות"@,
        Holiday::Shavuos => "שבועות"@,
        Holiday::SeventeenthOfTammuz => "שבעה עשר בתמוז"@,
        Holiday::TishahBav => "תשעה באב"@,
        Holiday::TuBav => "ט״ו באב"@,
        Holiday::ErevRoshHashana => "ערב ראש השנה"@,
        Holiday::RoshHashana => "ראש השנה"@,
        Holiday::FastOfGedalyah => "צום גדליה"@,
        Holiday::ErevYomKippur => "ערב יום כיפור"@,
        Holiday::YomKippur => "יום כיפור"@,
        Holiday::ErevSuccos => "ערב סוכות"@,
        Holiday::Succos => "סוכות"@,
        Holiday::HoshanaRabbah => "הושענא רבה"@,
        Holiday::SheminiAtzeres => "שמיני עצרת"@,
        Holiday::SimchasTorah => "שמחת תורה"@,
        Holiday::Chanukah => "חנוכה"@,
        Holiday::TenthOfTeves => "עשרה בטבת"@,
        Holiday::TuBshvat => "ט״ו בשבט"@,
        Holiday::FastOfEsther => "תענית אסתר"@,
        Holiday::Purim => "פורים"@,
        Holiday::ShushanPurim => "שושן פורים"@,
        Holiday::PurimKatan => "פורים קטן"@,
        Holiday::RoshChodesh => "ראש חודש"@,
        Holiday::YomHaShoah => "יום השואה"@,
        Holiday::YomHazikaron => "יום הזיכרון"@,
        Holiday::YomHaatzmaut => "יום העצמאות"@,
        Holiday::YomYerushalayim => "יום ירושלים"@,
        Holiday::LagBomer => "ל״ג בעומר"@,
        Holiday::ShushanPurimKatan => "שושן פורים קטן"@,
        Holiday::IsruChag => "אסרו חג"@,
        Holiday::YomKippurKatan => "יום העצמאות"@,
        Holiday::Behab => "יום כיפור קטן"@,
        Holiday::FastOfTheFirstborn => "תענית בכורות"@,
        Holiday::CountOfTheOmer => "ספירת העומר"@,
        Holiday::BirchasHachamah => "ברכת החמה"@,
        Holiday::MacharHachodesh => "מחר החדש"@,
        Holiday::ShabbosMevarchim => "שבת מברכים"@,
    }
}

/// All the holidays, in the order in which they are listed for a date.
pub open spec fn all_holidays() -> Seq<Holiday> {
    seq![Holiday::ErevPesach, Holiday::Pesach, Holiday::PesachSheni, Holiday::ErevShavuos, Holiday::Shavuos, Holiday::SeventeenthOfTammuz, Holiday::TishahBav, Holiday::TuBav, Holiday::ErevRoshHashana, Holiday::RoshHashana, Holiday::FastOfGedalyah, Holiday::ErevYomKippur, Holiday::YomKippur, Holiday::ErevSuccos, Holiday::Succos, Holiday::CholHamoed, Holiday::HoshanaRabbah, Holiday::SheminiAtzeres, Holiday::SimchasTorah, Holiday::Chanukah, Holiday::TenthOfTeves, Holiday::TuBshvat, Holiday::FastOfEsther, Holiday::Purim, Holiday::ShushanPurim, Holiday::PurimKatan, Holiday::RoshChodesh, Holiday::YomHaShoah, Holiday::YomHazikaron, Holiday::YomHaatzmaut, Holiday::YomYerushalayim, Holiday::LagBomer, Holiday::ShushanPurimKatan, Holiday::IsruChag, Holiday::YomKippurKatan, Holiday::Behab, Holiday::FastOfTheFirstborn, Holiday::CountOfTheOmer, Holiday::BirchasHachamah, Holiday::MacharHachodesh, Holiday::ShabbosMevarchim]
}

/// Whether Kislev has 29 days in the year; `false` for a year whose
/// arithmetic the library does not support.
fn year_kislev_short(year: i32) -> (r: bool)
    ensures
        r == kislev_short_in(year as int),
{
    if MIN_HEBREW_YEAR < year && year < MAX_HEBREW_YEAR {
        is_kislev_short(year)
    } else {
        false
    }
}

/// Whether the holiday falls on a date with the given fields.
pub fn holiday_is_today(h: Holiday, f: &DateFields, in_israel: bool) -> (r: bool)
    ensures
        r == holiday_on(h, *f, in_israel),
{
    let m = f.month;
    let d = f.day;
    let w = f.weekday;
    let leap = f.in_leap_year;
    match h {
        Holiday::ErevPesach => m == HebrewMonth::Nissan && d == 14,
        Holiday::Pesach => m == HebrewMonth::Nissan && (d == 15 || d == 21 || (!in_israel && (d == 16 || d == 22))),
        Holiday::CholHamoed => (m == HebrewMonth::Nissan || m == HebrewMonth::Tishrei) && ((in_israel && d == 16) || (17 <= d && d <= 20)),
        Holiday::PesachSheni => m == HebrewMonth::Iyar && d == 14,
        Holiday::ErevShavuos => m == HebrewMonth::Sivan && d == 5,
        Holiday::Shavuos => m == HebrewMonth::Sivan && (d == 6 || (!in_israel && d == 7)),
        Holiday::SeventeenthOfTammuz => m == HebrewMonth::Tammuz && ((d == 17 && w != Weekday::Saturday) || (d == 18 && w == Weekday::Sunday)),
        Holiday::TishahBav => m == HebrewMonth::Av && ((w == Weekday::Sunday && d == 10) || (w != Weekday::Saturday && d == 9)),
        Holiday::TuBav => m == HebrewMonth::Av && d == 15,
        Holiday::ErevRoshHashana => m == HebrewMonth::Elul && d == 29,
        Holiday::RoshHashana => m == HebrewMonth::Tishrei && (d == 1 || d == 2),
        Holiday::FastOfGedalyah => m == HebrewMonth::Tishrei && ((d == 3 && w != Weekday::Saturday) || (d == 4 && w == Weekday::Sunday)),
        Holiday::ErevYomKippur => m == HebrewMonth::Tishrei && d == 9,
        Holiday::YomKippur => m == HebrewMonth::Tishrei && d == 10,
        Holiday::ErevSuccos => m == HebrewMonth::Tishrei && d == 14,
        Holiday::Succos => m == HebrewMonth::Tishrei && (d == 15 || (!in_israel && d == 16)),
        Holiday::HoshanaRabbah => m == HebrewMonth::Tishrei && d == 21,
        Holiday::SheminiAtzeres => m == HebrewMonth::Tishrei && d == 22,
        Holiday::SimchasTorah => m == HebrewMonth::Tishrei && d == 23 && !in_israel,
        Holiday::Chanukah => {
            if m == HebrewMonth::Kislev && d >= 25 {
                true
            } else if m == HebrewMonth::Teves {
                let max_teves_day: u8 = if year_kislev_short(f.year) {
                    3
                } else {
                    2
                };
                d <= max_teves_day
            } else {
                false
            }
        },
        Holiday::TenthOfTeves => m == HebrewMonth::Teves && d == 10,
        Holiday::TuBshvat => m == HebrewMonth::Shevat && d == 15,
        Holiday::FastOfEsther => (m == HebrewMonth::AdarII || (!leap && m == HebrewMonth::Adar)) && (((d == 11 || d == 12) && w == Weekday::Thursday) || (d == 13 && !(w == Weekday::Friday || w == Weekday::Saturday))),
        Holiday::Purim => ((m == HebrewMonth::Adar && !leap) || m == HebrewMonth::AdarII) && d == 14,
        Holiday::ShushanPurim => ((m == HebrewMonth::Adar && !leap) || m == HebrewMonth::AdarII) && d == 15,
        Holiday::PurimKatan => m == HebrewMonth::Adar && leap && d == 14,
        Holiday::RoshChodesh => (d == 1 && m != HebrewMonth::Tishrei) || d == 30,
        Holiday::YomHaShoah => m == HebrewMonth::Nissan && ((d == 26 && w == Weekday::Thursday) || (d == 28 && w == Weekday::Monday) || (d == 27 && w != Weekday::Sunday && w != Weekday::Friday)),
        Holiday::YomHazikaron => m == HebrewMonth::Iyar && ((d == 4 && w == Weekday::Tuesday) || ((d == 3 || d == 2) && w == Weekday::Wednesday) || (d == 5 && w == Weekday::Monday)),
        Holiday::YomHaatzmaut => m == HebrewMonth::Iyar && ((d == 5 && w == Weekday::Wednesday) || ((d == 4 || d == 3) && w == Weekday::Thursday) || (d == 6 && w == Weekday::Tuesday)),
        Holiday::YomYerushalayim => m == HebrewMonth::Iyar && d == 28,
        Holiday::LagBomer => m == HebrewMonth::Iyar && d == 18,
        Holiday::ShushanPurimKatan => m == HebrewMonth::Adar && leap && d == 15,
        Holiday::IsruChag => (in_israel && ((m == HebrewMonth::Nissan && d == 22) || (m == HebrewMonth::Sivan && d == 7) || (m == HebrewMonth::Tishrei && d == 23))) || (!in_israel && ((m == HebrewMonth::Nissan && d == 23) || (m == HebrewMonth::Sivan && d == 8) || (m == HebrewMonth::Tishrei && d == 24))),
        Holiday::YomKippurKatan => !(m == HebrewMonth::Elul || m == HebrewMonth::Tishrei || m == HebrewMonth::Kislev || m == HebrewMonth::Nissan) && ((d == 29 && w != Weekday::Friday && w != Weekday::Saturday) || ((d == 27 || d == 28) && w == Weekday::Thursday)),
        Holiday::Behab => (m == HebrewMonth::Cheshvan || m == HebrewMonth::Iyar) && ((w == Weekday::Monday && d > 4 && d < 18) || (w == Weekday::Thursday && d > 7 && d < 14)),
        Holiday::FastOfTheFirstborn => m == HebrewMonth::Nissan && ((d == 14 && w != Weekday::Saturday) || (d == 12 && w == Weekday::Thursday)),
        Holiday::CountOfTheOmer => (m == HebrewMonth::Nissan && d >= 16) || m == HebrewMonth::Iyar || (m == HebrewMonth::Sivan && d < 6),
        Holiday::BirchasHachamah => {
            if MIN_HEBREW_YEAR < f.year && f.year <= MAX_HEBREW_YEAR {
                let elapsed_days = get_hebrew_elapsed_days(f.year) + f.day_of_year as i32;
                (elapsed_days % 10227) == 172
            } else {
                false
            }
        },
        Holiday::MacharHachodesh => w == Weekday::Saturday && (d == 30 || d == 29),
        Holiday::ShabbosMevarchim => w == Weekday::Saturday && d >= 23 && d <= 29 && m != HebrewMonth::Elul,
    }
}

impl Holiday {
    /// Whether work is forbidden (assur bemelacha) on this holiday.
    pub fn is_assur_bemelacha(&self) -> (r: bool)
        ensures
            r == spec_is_assur_bemelacha(*self),
    {
        match self {
            Holiday::Pesach | Holiday::Shavuos | Holiday::Succos | Holiday::SheminiAtzeres
            | Holiday::SimchasTorah | Holiday::RoshHashana | Holiday::YomKippur => true,
            _ => false,
        }
    }

    /// Whether this is a modern Israeli holiday.
    pub fn is_modern_holiday(&self) -> (r: bool)
        ensures
            r == spec_is_modern_holiday(*self),
    {
        match self {
            Holiday::YomHaShoah | Holiday::YomHazikaron | Holiday::YomHaatzmaut
            | Holiday::YomYerushalayim => true,
            _ => false,
        }
    }

    /// Whether this holiday is a fast day.
    pub fn is_fast_day(&self) -> (r: bool)
        ensures
            r == spec_is_fast_day(*self),
    {
        match self {
            Holiday::FastOfGedalyah | Holiday::FastOfEsther | Holiday::TishahBav
            | Holiday::TenthOfTeves | Holiday::SeventeenthOfTammuz | Holiday::YomKippur => true,
            _ => false,
        }
    }

    /// All the holidays, in the order in which they are listed for a date.
    pub fn all() -> (r: [Holiday; 41])
        ensures
            r@ == all_holidays(),
    {
        let r = [
            Holiday::ErevPesach,
            Holiday::Pesach,
            Holiday::PesachSheni,
            Holiday::ErevShavuos,
            Holiday::Shavuos,
            Holiday::SeventeenthOfTammuz,
            Holiday::TishahBav,
            Holiday::TuBav,
            Holiday::ErevRoshHashana,
            Holiday::RoshHashana,
            Holiday::FastOfGedalyah,
            Holiday::ErevYomKippur,
            Holiday::YomKippur,
            Holiday::ErevSuccos,
            Holiday::Succos,
            Holiday::CholHamoed,
            Holiday::HoshanaRabbah,
            Holiday::SheminiAtzeres,
            Holiday::SimchasTorah,
            Holiday::Chanukah,
            Holiday::TenthOfTeves,
            Holiday::TuBshvat,
            Holiday::FastOfEsther,
            Holiday::Purim,
            Holiday::ShushanPurim,
            Holiday::PurimKatan,
            Holiday::RoshChodesh,
            Holiday::YomHaShoah,
            Holiday::YomHazikaron,
            Holiday::YomHaatzmaut,
            Holiday::YomYerushalayim,
            Holiday::LagBomer,
            Holiday::ShushanPurimKatan,
            Holiday::IsruChag,
            Holiday::YomKippurKatan,
            Holiday::Behab,
            Holiday::FastOfTheFirstborn,
            Holiday::CountOfTheOmer,
            Holiday::BirchasHachamah,
            Holiday::MacharHachodesh,
            Holiday::ShabbosMevarchim,
        ];
        assert(r@ =~= all_holidays());
        r
    }

    /// The Hebrew name of the holiday.
    pub fn he(&self) -> (s: &'static str)
        ensures
            s@ == holiday_name(*self),
    {
        match self {
            Holiday::ErevPesach => "ערב פסח",
            Holiday::Pesach => "פסח",
            Holiday::CholHamoed => "חול המועד",
            Holiday::PesachSheni => "פסח שני",
            Holiday::ErevShavuos => "ערב שבועות",
            Holiday::Shavuos => "שבועות",
            Holiday::SeventeenthOfTammuz => "שבעה עשר בתמוז",
            Holiday::TishahBav => "תשעה באב",
            Holiday::TuBav => "ט״ו באב",
            Holiday::ErevRoshHashana => "ערב ראש השנה",
            Holiday::RoshHashana => "ראש השנה",
            Holiday::FastOfGedalyah => "צום גדליה",
            Holiday::ErevYomKippur => "ערב יום כיפור",
            Holiday::YomKippur => "יום כיפור",
            Holiday::ErevSuccos => "ערב סוכות",
            Holiday::Succos => "סוכות",
            Holiday::HoshanaRabbah => "הושענא רבה",
            Holiday::SheminiAtzeres => "שמיני עצרת",
            Holiday::SimchasTorah => "שמחת תורה",
            Holiday::Chanukah => "חנוכה",
            Holiday::TenthOfTeves => "עשרה בטבת",
            Holiday::TuBshvat => "ט״ו בשבט",
            Holiday::FastOfEsther => "תענית אסתר",
            Holiday::Purim => "פורים",
            Holiday::ShushanPurim => "שושן פורים",
            Holiday::PurimKatan => "פורים קטן",
            Holiday::RoshChodesh => "ראש חודש",
            Holiday::YomHaShoah => "יום השואה",
            Holiday::YomHazikaron => "יום הזיכרון",
            Holiday::YomHaatzmaut => "יום העצמאות",
            Holiday::YomYerushalayim => "יום ירושלים",
            Holiday::LagBomer => "ל״ג בעומר",
            Holiday::ShushanPurimKatan => "שושן פורים קטן",
            Holiday::IsruChag => "אסרו חג",
            Holiday::YomKippurKatan => "יום העצמאות",
            Holiday::Behab => "יום כיפור קטן",
            Holiday::FastOfTheFirstborn => "תענית בכורות",
            Holiday::CountOfTheOmer => "ספירת העומר",
            Holiday::BirchasHachamah => "ברכת החמה",
            Holiday::MacharHachodesh => "מחר החדש",
            Holiday::ShabbosMevarchim => "שבת מברכים",
        }
    }
}

/// The last Adar of a year, the one before Nissan: Adar II in a leap year,
/// Adar otherwise.
pub open spec fn last_adar(leap: bool) -> HebrewMonth {
    if leap {
        HebrewMonth::AdarII
    } else {
        HebrewMonth::Adar
    }
}

/// Purim falls on one day of the year, the 14th of the last Adar: in a year
/// without a leap month the 14th of Adar, in a leap year the 14th of Adar
/// II (not of Adar I), in Israel and outside it.
pub proof fn lemma_purim_on_14_of_last_adar(f: DateFields, in_israel: bool)
    requires
        f.month == HebrewMonth::AdarII ==> f.in_leap_year,
    ensures
        holiday_on(Holiday::Purim, f, in_israel) <==> (f.month == last_adar(f.in_leap_year) && f.day
            == 14),
{
}

/// Every holiday appears in the list of all holidays.
pub proof fn lemma_all_holidays_complete(h: Holiday)
    ensures
        all_holidays().contains(h),
{
    let s = all_holidays();
    assert(exists|i: int| 0 <= i < s.len() && s[i] == h) by {
        match h {
            Holiday::ErevPesach => { assert(s[0] == h); },
            Holiday::Pesach => { assert(s[1] == h); },
            Holiday::CholHamoed => { assert(s[15] == h); },
            Holiday::PesachSheni => { assert(s[2] == h); },
            Holiday::ErevShavuos => { assert(s[3] == h); },
            Holiday::Shavuos => { assert(s[4] == h); },
            Holiday::SeventeenthOfTammuz => { assert(s[5] == h); },
            Holiday::TishahBav => { assert(s[6] == h); },
            Holiday::TuBav => { assert(s[7] == h); },
            Holiday::ErevRoshHashana => { assert(s[8] == h); },
            Holiday::RoshHashana => { assert(s[9] == h); },
            Holiday::FastOfGedalyah => { assert(s[10] == h); },
            Holiday::ErevYomKippur => { assert(s[11] == h); },
            Holiday::YomKippur => { assert(s[12] == h); },
            Holiday::ErevSuccos => { assert(s[13] == h); },
            Holiday::Succos => { assert(s[14] == h); },
            Holiday::HoshanaRabbah => { assert(s[16] == h); },
            Holiday::SheminiAtzeres => { assert(s[17] == h); },
            Holiday::SimchasTorah => { assert(s[18] == h); },
            Holiday::Chanukah => { assert(s[19] == h); },
            Holiday::TenthOfTeves => { assert(s[20] == h); },
            Holiday::TuBshvat => { assert(s[21] == h); },
            Holiday::FastOfEsther => { assert(s[22] == h); },
            Holiday::Purim => { assert(s[23] == h); },
            Holiday::ShushanPurim => { assert(s[24] == h); },
            Holiday::PurimKatan => { assert(s[25] == h); },
            Holiday::RoshChodesh => { assert(s[26] == h); },
            Holiday::YomHaShoah => { assert(s[27] == h); },
            Holiday::YomHazikaron => { assert(s[28] == h); },
            Holiday::YomHaatzmaut => { assert(s[29] == h); },
            Holiday::YomYerushalayim => { assert(s[30] == h); },
            Holiday::LagBomer => { assert(s[31] == h); },
            Holiday::ShushanPurimKatan => { assert(s[32] == h); },
            Holiday::IsruChag => { assert(s[33] == h); },
            Holiday::YomKippurKatan => { assert(s[34] == h); },
            Holiday::Behab => { assert(s[35] == h); },
            Holiday::FastOfTheFirstborn => { assert(s[36] == h); },
            Holiday::CountOfTheOmer => { assert(s[37] == h); },
            Holiday::BirchasHachamah => { assert(s[38] == h); },
            Holiday::MacharHachodesh => { assert(s[39] == h); },
            Holiday::ShabbosMevarchim => { assert(s[40] == h); },
        }
    }
}

} // verus!
