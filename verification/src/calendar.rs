//! What a Hebrew date is in the Jewish calendar: its holidays, whether work
//! is forbidden on it, the days of Chanukah and of the Omer.
use vstd::prelude::*;

use crate::date::{valid_day_number, HebrewDate, Weekday};
use crate::holiday::{
    last_adar, lemma_purim_on_14_of_last_adar,
    all_holidays, fields_at, fields_of, holiday_is_today, holiday_on, kislev_short_in,
    lemma_all_holidays_complete, spec_is_assur_bemelacha, spec_is_modern_holiday, DateFields,
    Holiday,
};
use crate::arithmetic::{
    is_kislev_short, spec_days_in_month, spec_next_month, MAX_HEBREW_YEAR, MIN_HEBREW_YEAR,
};
use crate::month::HebrewMonth;

verus! {

broadcast use vstd::seq_lib::group_seq_properties;

/// Whether a holiday is listed for a date with the given fields: it falls on
/// the date, and is not a modern holiday unless those are asked for.
pub open spec fn listed_on(h: Holiday, f: DateFields, in_israel: bool, use_modern: bool) -> bool {
    holiday_on(h, f, in_israel) && (use_modern || !spec_is_modern_holiday(h))
}

/// The holidays listed for a date with the given fields, in the order of
/// `all_holidays`.
pub open spec fn listed_holidays(f: DateFields, in_israel: bool, use_modern: bool) -> Seq<Holiday> {
    all_holidays().filter(|h: Holiday| listed_on(h, f, in_israel, use_modern))
}

/// Work is forbidden on a date: it is Shabbos, or one of the festivals on
/// which work is forbidden falls on it.
pub open spec fn assur_bemelacha_on(f: DateFields, in_israel: bool) -> bool {
    f.weekday == Weekday::Saturday || exists|h: Holiday|
        spec_is_assur_bemelacha(h) && #[trigger] holiday_on(h, f, in_israel)
}

/// The day of Chanukah on a date with the given fields, if it is Chanukah.
pub open spec fn chanukah_day(f: DateFields) -> Option<int> {
    if !holiday_on(Holiday::Chanukah, f, false) {
        None
    } else if f.month == HebrewMonth::Kislev {
        Some(f.day - 24)
    } else if kislev_short_in(f.year as int) {
        Some(f.day + 5)
    } else {
        Some(f.day + 6)
    }
}

/// The day of the Omer on a date with the given month and day, if the Omer
/// is counted then.
pub open spec fn omer_day(m: HebrewMonth, d: int) -> Option<int> {
    if m == HebrewMonth::Nissan && d >= 16 {
        Some(d - 15)
    } else if m == HebrewMonth::Iyar {
        Some(d + 15)
    } else if m == HebrewMonth::Sivan && d < 6 {
        Some(d + 44)
    } else {
        None
    }
}

/// A holiday is in the list of a date's holidays exactly when it falls on
/// the date and is not a modern holiday left out.
pub proof fn lemma_listed_holidays(h: Holiday, f: DateFields, in_israel: bool, use_modern: bool)
    ensures
        listed_holidays(f, in_israel, use_modern).contains(h) <==> listed_on(h, f, in_israel, use_modern),
{
    let pred = |x: Holiday| listed_on(x, f, in_israel, use_modern);
    let hs = listed_holidays(f, in_israel, use_modern);
    if listed_on(h, f, in_israel, use_modern) {
        lemma_all_holidays_complete(h);
        let k = choose|k: int| 0 <= k < all_holidays().len() && all_holidays()[k] == h;
        all_holidays().lemma_filter_contains(pred, k);
    }
    if hs.contains(h) {
        let j = choose|j: int| 0 <= j < hs.len() && hs[j] == h;
        all_holidays().lemma_filter_pred(pred, j);
    }
}

/// On the 14th of the last Adar, and on no other day, the holidays listed
/// for the date hold Purim.
pub proof fn lemma_purim_listed(f: DateFields, in_israel: bool, use_modern: bool)
    requires
        f.month == HebrewMonth::AdarII ==> f.in_leap_year,
    ensures
        listed_holidays(f, in_israel, use_modern).contains(Holiday::Purim) <==> (f.month
            == last_adar(f.in_leap_year) && f.day == 14),
{
    lemma_listed_holidays(Holiday::Purim, f, in_israel, use_modern);
    lemma_purim_on_14_of_last_adar(f, in_israel);
}

/// The (month, day) after the given day of a month of a year: the next day
/// of the month, or the first of the next month after its last day.
pub open spec fn day_after(year: int, m: HebrewMonth, d: int) -> (HebrewMonth, int) {
    if d < spec_days_in_month(year, m) {
        (m, d + 1)
    } else {
        (spec_next_month(year, m).1, 1)
    }
}

/// Chanukah counts its days from 25 Kislev: that day is the first, and each
/// following day of the eight, across the end of Kislev whether it has 29
/// or 30 days, is one more than the day before; the day before 25 Kislev
/// and the day after the eighth are not Chanukah.
pub proof fn lemma_chanukah_counts_days(f: DateFields, g: DateFields)
    requires
        MIN_HEBREW_YEAR < f.year < MAX_HEBREW_YEAR,
        f.month == HebrewMonth::Kislev || f.month == HebrewMonth::Teves,
        1 <= f.day <= spec_days_in_month(f.year as int, f.month),
        g.year == f.year,
        (g.month, g.day as int) == day_after(f.year as int, f.month, f.day as int),
    ensures
        f.month == HebrewMonth::Kislev && f.day == 25 ==> chanukah_day(f) == Some(1int),
        f.month == HebrewMonth::Kislev && f.day == 24 ==> chanukah_day(f) is None && chanukah_day(g)
            == Some(1int),
        chanukah_day(f) is Some && chanukah_day(f).unwrap() < 8 ==> chanukah_day(g) == Some(
            chanukah_day(f).unwrap() + 1,
        ),
        chanukah_day(f) == Some(8int) ==> chanukah_day(g) is None,
        chanukah_day(f) matches Some(n) ==> 1 <= n <= 8,
{
    let short = kislev_short_in(f.year as int);
    assert(spec_days_in_month(f.year as int, HebrewMonth::Kislev) == if short {
        29int
    } else {
        30int
    });
    assert(spec_days_in_month(f.year as int, HebrewMonth::Teves) == 29);
    assert(spec_next_month(f.year as int, HebrewMonth::Kislev).1 == HebrewMonth::Teves);
}

/// The Omer counts its days from 16 Nissan: that day is the first, and each
/// following day up to the 49th, across the ends of Nissan (30 days) and
/// Iyar (29 days), is one more than the day before; 15 Nissan and the day
/// after the 49th (6 Sivan) are not counted.
pub proof fn lemma_omer_counts_days(year: int, m: HebrewMonth, d: int)
    requires
        m == HebrewMonth::Nissan || m == HebrewMonth::Iyar || m == HebrewMonth::Sivan,
        1 <= d <= spec_days_in_month(year, m),
    ensures
        omer_day(HebrewMonth::Nissan, 16) == Some(1int),
        omer_day(HebrewMonth::Nissan, 15) is None,
        omer_day(m, d) is Some && omer_day(m, d).unwrap() < 49 ==> omer_day(
            day_after(year, m, d).0,
            day_after(year, m, d).1,
        ) == Some(omer_day(m, d).unwrap() + 1),
        omer_day(m, d) == Some(49int) ==> omer_day(day_after(year, m, d).0, day_after(year, m, d).1)
            is None,
        omer_day(m, d) matches Some(n) ==> 1 <= n <= 49,
{
}

impl HebrewDate {
    /// The fields of the date that the holiday rules read.
    pub fn fields(&self) -> (f: DateFields)
        ensures
            f == fields_of(*self),
            1 <= f.day <= 30,
    {
        DateFields {
            year: self.extended_year(),
            month: self.hebrew_month(),
            day: self.day_of_month(),
            weekday: self.day_of_week(),
            in_leap_year: self.is_in_leap_year(),
            day_of_year: self.day_of_year(),
        }
    }

    /// The holidays that fall on this date, in the order of `Holiday::all`.
    ///
    /// `in_israel` selects the customs of Israel (one day of Yom Tov), and
    /// `use_modern_holidays` whether modern Israeli holidays are listed.
    pub fn holidays(&self, in_israel: bool, use_modern_holidays: bool) -> (r: Vec<Holiday>)
        ensures
            r@ == listed_holidays(fields_of(*self), in_israel, use_modern_holidays),
    {
        let f = self.fields();
        let all = Holiday::all();
        let ghost pred = |h: Holiday| listed_on(h, f, in_israel, use_modern_holidays);
        let mut r: Vec<Holiday> = Vec::new();
        let mut i: usize = 0;
        while i < 41
            invariant
                0 <= i <= 41,
                all@ == all_holidays(),
                pred == (|h: Holiday| listed_on(h, f, in_israel, use_modern_holidays)),
                r@ == all@.take(i as int).filter(pred),
            decreases 41 - i,
        {
            let h = all[i];
            assert(all@.take(i + 1) =~= all@.take(i as int).push(h));
            proof {
                all@.take(i as int).lemma_filter_push(h, pred);
            }
            if holiday_is_today(h, &f, in_israel) && (use_modern_holidays
                || !h.is_modern_holiday()) {
                r.push(h);
            }
            i += 1;
        }
        assert(all@.take(41) =~= all@);
        r
    }

    /// Whether work is forbidden (assur bemelacha) on this date: Shabbos, or
    /// a festival on which work is forbidden.
    pub fn is_assur_bemelacha(&self, in_israel: bool) -> (r: bool)
        ensures
            r == assur_bemelacha_on(fields_of(*self), in_israel),
    {
        let f = self.fields();
        let hs = self.holidays(in_israel, false);
        let ghost pred = |h: Holiday| listed_on(h, f, in_israel, false);
        let mut found = false;
        let mut i: usize = 0;
        while i < hs.len()
            invariant
                0 <= i <= hs.len(),
                hs@ == all_holidays().filter(pred),
                pred == (|h: Holiday| listed_on(h, f, in_israel, false)),
                found == exists|j: int| 0 <= j < i && spec_is_assur_bemelacha(#[trigger] hs@[j]),
            decreases hs.len() - i,
        {
            if hs[i].is_assur_bemelacha() {
                found = true;
            }
            i += 1;
        }
        proof {
            if found {
                let j = choose|j: int| 0 <= j < hs.len() && spec_is_assur_bemelacha(
                    #[trigger] hs@[j],
                );
                all_holidays().lemma_filter_pred(pred, j);
                assert(holiday_on(hs@[j], f, in_israel));
            } else {
                assert forall|h: Holiday|
                    spec_is_assur_bemelacha(h) implies !#[trigger] holiday_on(h, f, in_israel) by {
                    if holiday_on(h, f, in_israel) {
                        lemma_all_holidays_complete(h);
                        let k = choose|k: int| 0 <= k < all_holidays().len() && all_holidays()[k] == h;
                        all_holidays().lemma_filter_contains(pred, k);
                        let j = choose|j: int| 0 <= j < hs@.len() && hs@[j] == h;
                        assert(spec_is_assur_bemelacha(hs@[j]));
                    }
                }
            }
        }
        found || f.weekday == Weekday::Saturday
    }

    /// Whether candles are lit on this date: work is forbidden on the next day.
    pub fn has_candle_lighting(&self, in_israel: bool) -> (r: bool)
        ensures
            r == (valid_day_number(self@ + 1) && assur_bemelacha_on(fields_at(self@ + 1), in_israel)),
    {
        match self.add_days(1) {
            Some(next) => next.is_assur_bemelacha(in_israel),
            None => false,
        }
    }

    /// Whether the date is in the Ten Days of Repentance (Tishrei 1 to 10).
    pub fn is_aseres_yemei_teshuva(&self) -> (r: bool)
        ensures
            r == (self.spec_month() == HebrewMonth::Tishrei && self.spec_day() <= 10),
    {
        self.hebrew_month() == HebrewMonth::Tishrei && self.day_of_month() <= 10
    }

    /// The day of Chanukah (1 to 8), or `None` if the date is not Chanukah.
    pub fn day_of_chanukah(&self) -> (r: Option<u8>)
        ensures
            r matches Some(n) ==> chanukah_day(fields_of(*self)) == Some(n as int),
            r is None <==> chanukah_day(fields_of(*self)) is None,
            r matches Some(n) ==> 1 <= n <= 8,
    {
        let f = self.fields();
        if !holiday_is_today(Holiday::Chanukah, &f, false) {
            return None;
        }
        if f.month == HebrewMonth::Kislev {
            Some(f.day - 24)
        } else if MIN_HEBREW_YEAR < f.year && f.year < MAX_HEBREW_YEAR && is_kislev_short(f.year) {
            Some(f.day + 5)
        } else {
            Some(f.day + 6)
        }
    }

    /// The day of the Omer (1 to 49), or `None` if the Omer is not counted.
    pub fn day_of_the_omer(&self) -> (r: Option<u8>)
        ensures
            r matches Some(n) ==> omer_day(self.spec_month(), self.spec_day()) == Some(n as int),
            r is None <==> omer_day(self.spec_month(), self.spec_day()) is None,
            r matches Some(n) ==> 1 <= n <= 49,
    {
        let month = self.hebrew_month();
        let day = self.day_of_month();
        if month == HebrewMonth::Nissan && day >= 16 {
            Some(day - 15)
        } else if month == HebrewMonth::Iyar {
            Some(day + 15)
        } else if month == HebrewMonth::Sivan && day < 6 {
            Some(day + 44)
        } else {
            None
        }
    }
}

} // verus!
