//! The monthly cycle of Tehillim: the book of Psalms is read through in each
//! Hebrew month.
use vstd::prelude::*;

use crate::limud_calculator::LimudCalculator;
use crate::cycle::{Cycle, PerpetualCycleFinder};
use crate::interval::Interval;
use crate::date::{hebrew_date_spec, month_at, HebrewDate};
use crate::icu::{icu_hebrew_day_of_month, icu_hebrew_days_in_month, icu_hebrew_year};

verus! {

/// A Tehillim reading.
#[derive(Debug, Clone, Copy, PartialEq, Eq, Hash, Structural)]
pub enum TehillimUnit {
    /// A range of complete psalms (e.g., psalms 1-9).
    Psalms { start: u8, end: u8 },
    /// A range of verses within a single psalm (for Psalm 119).
    PsalmVerses { psalm: u8, start_verse: u16, end_verse: u16 },
}

/// The last psalm read on each day of the month, the first day first.
pub open spec fn psalm_ends() -> Seq<u8> {
    seq![
        9u8, 17, 22, 28, 34, 38, 43, 48, 54, 59, 65, 68, 71, 76, 78, 82, 87, 89, 96, 103, 105, 107,
        112, 118, 119, 119, 134, 139, 144, 150,
    ]
}

/// The reading of day `iteration` of the month (the first day being 1), on
/// a date that is day `day` of a month of `days_in_month` days: the 25th and
/// 26th days split Psalm 119, and on the 29th of a 29-day month the 30th
/// day's psalms are read as well.
pub open spec fn tehillim_unit(iteration: int, day: int, days_in_month: int) -> Option<TehillimUnit> {
    if iteration == 25 {
        Some(TehillimUnit::PsalmVerses { psalm: 119, start_verse: 1, end_verse: 96 })
    } else if iteration == 26 {
        Some(TehillimUnit::PsalmVerses { psalm: 119, start_verse: 97, end_verse: 176 })
    } else if 1 <= iteration <= 30 {
        let start: u8 = if iteration == 1 {
            1
        } else {
            (psalm_ends()[iteration - 2] + 1) as u8
        };
        let end: u8 = if day == 29 && days_in_month == 29 && iteration < 30 {
            psalm_ends()[iteration]
        } else {
            psalm_ends()[iteration - 1]
        };
        Some(TehillimUnit::Psalms { start, end })
    } else {
        None
    }
}

/// The (first, last) day numbers of the month of day number `d`: the first
/// of the month and the month's last day. `None` where `icu_calendar` does
/// not build them.
pub open spec fn monthly_cycle_spec(d: int) -> Option<(int, int)> {
    let year = icu_hebrew_year(d);
    let month = month_at(d);
    match (
        hebrew_date_spec(year, month, 1),
        hebrew_date_spec(year, month, icu_hebrew_days_in_month(d)),
    ) {
        (Some(s), Some(e)) => Some((s, e)),
        _ => None,
    }
}

/// The Tehillim reading of day number `d`: the reading of the day's place
/// in its month.
pub open spec fn tehillim_on(d: int) -> Option<TehillimUnit> {
    match monthly_cycle_spec(d) {
        Some((s, e)) => if s <= d && d <= e {
            tehillim_unit(d - s + 1, icu_hebrew_day_of_month(d), icu_hebrew_days_in_month(d))
        } else {
            None
        },
        None => None,
    }
}

/// The book is finished every month: the reading of the month's last day,
/// in a month of 29 or of 30 days, ends with Psalm 150, and the first day
/// starts with Psalm 1.
pub proof fn lemma_book_finished_each_month(days_in_month: int)
    requires
        days_in_month == 29 || days_in_month == 30,
    ensures
        tehillim_unit(days_in_month, days_in_month, days_in_month) matches Some(
            TehillimUnit::Psalms { end, .. },
        ) && end == 150,
        tehillim_unit(1, 1, days_in_month) matches Some(TehillimUnit::Psalms { start, .. })
            && start == 1,
{
}

/// The first psalm of a reading (Psalm 119 for a part of it).
pub open spec fn first_psalm(u: TehillimUnit) -> int {
    match u {
        TehillimUnit::Psalms { start, .. } => start as int,
        TehillimUnit::PsalmVerses { psalm, .. } => psalm as int,
    }
}

/// The last psalm of a reading (Psalm 119 for a part of it).
pub open spec fn last_psalm(u: TehillimUnit) -> int {
    match u {
        TehillimUnit::Psalms { end, .. } => end as int,
        TehillimUnit::PsalmVerses { psalm, .. } => psalm as int,
    }
}

/// The month law: in a month of 29 or 30 days every day has a reading; the
/// first day reads Psalms 1 to 9, the 25th and 26th split Psalm 119, each
/// day starts right after the psalm the day before ended (the 26th goes on
/// in Psalm 119), and the last day ends with Psalm 150, so that each psalm
/// is read once. The 29th of a 29-day month reads 140 to 150; a 30-day
/// month reads 140 to 144 on the 29th and 145 to 150 on the 30th.
pub proof fn lemma_tehillim_month(n: int)
    requires
        n == 29 || n == 30,
    ensures
        forall|k: int| 1 <= k <= n ==> #[trigger] tehillim_unit(k, k, n) is Some,
        tehillim_unit(1, 1, n) == Some(TehillimUnit::Psalms { start: 1, end: 9 }),
        tehillim_unit(25, 25, n) == Some(
            TehillimUnit::PsalmVerses { psalm: 119, start_verse: 1, end_verse: 96 },
        ),
        tehillim_unit(26, 26, n) == Some(
            TehillimUnit::PsalmVerses { psalm: 119, start_verse: 97, end_verse: 176 },
        ),
        forall|k: int|
            2 <= k <= n && k != 26 ==> first_psalm(#[trigger] tehillim_unit(k, k, n).unwrap())
                == last_psalm(tehillim_unit(k - 1, k - 1, n).unwrap()) + 1,
        last_psalm(tehillim_unit(n, n, n).unwrap()) == 150,
        n == 29 ==> tehillim_unit(29, 29, n) == Some(TehillimUnit::Psalms { start: 140, end: 150 }),
        n == 30 ==> tehillim_unit(29, 29, n) == Some(TehillimUnit::Psalms { start: 140, end: 144 })
            && tehillim_unit(30, 30, n) == Some(TehillimUnit::Psalms { start: 145, end: 150 }),
{
    assert forall|k: int| 1 <= k <= n implies #[trigger] tehillim_unit(k, k, n) is Some by {}
    assert forall|k: int|
        2 <= k <= n && k != 26 implies first_psalm(#[trigger] tehillim_unit(k, k, n).unwrap())
            == last_psalm(tehillim_unit(k - 1, k - 1, n).unwrap()) + 1 by {
        assert(k == 2 || k == 3 || k == 4 || k == 5 || k == 6 || k == 7 || k == 8 || k == 9 || k
            == 10 || k == 11 || k == 12 || k == 13 || k == 14 || k == 15 || k == 16 || k == 17
            || k == 18 || k == 19 || k == 20 || k == 21 || k == 22 || k == 23 || k == 24 || k
            == 25 || k == 27 || k == 28 || k == 29 || k == 30);
    }
}

/// The first and last day of the month of `date`.
pub fn find_monthly_cycle(date: &HebrewDate) -> (r: Option<(HebrewDate, HebrewDate)>)
    ensures
        r is Some <==> monthly_cycle_spec(date@) is Some,
        r matches Some(c) ==> monthly_cycle_spec(date@) == Some((c.0@, c.1@)),
        r matches Some(c) ==> c.1@ - c.0@ + 1 == icu_hebrew_days_in_month(date@) && (
        icu_hebrew_days_in_month(date@) == 29 || icu_hebrew_days_in_month(date@) == 30),
{
    let year = date.extended_year();
    let month = date.hebrew_month();
    let start = match HebrewDate::from_hebrew_date(year, month, 1) {
        Some(s) => s,
        None => return None,
    };
    let end = match HebrewDate::from_hebrew_date(year, month, date.days_in_month()) {
        Some(e) => e,
        None => return None,
    };
    Some((start, end))
}

/// The last psalm read on day `i + 1` of the month.
fn psalm_end(i: usize) -> (r: u8)
    requires
        i < 30,
    ensures
        r == psalm_ends()[i as int],
{
    match i {
        0 => 9,
        1 => 17,
        2 => 22,
        3 => 28,
        4 => 34,
        5 => 38,
        6 => 43,
        7 => 48,
        8 => 54,
        9 => 59,
        10 => 65,
        11 => 68,
        12 => 71,
        13 => 76,
        14 => 78,
        15 => 82,
        16 => 87,
        17 => 89,
        18 => 96,
        19 => 103,
        20 => 105,
        21 => 107,
        22 => 112,
        23 => 118,
        24 => 119,
        25 => 119,
        26 => 134,
        27 => 139,
        28 => 144,
        _ => 150,
    }
}

/// The reading of day `iteration` of the month, on a date that is day `day`
/// of a month of `days_in_month` days.
pub fn unit_for_day(iteration: i64, day: u8, days_in_month: u8) -> (r: Option<TehillimUnit>)
    ensures
        r == tehillim_unit(iteration as int, day as int, days_in_month as int),
{
    if iteration == 25 {
        return Some(TehillimUnit::PsalmVerses { psalm: 119, start_verse: 1, end_verse: 96 });
    }
    if iteration == 26 {
        return Some(TehillimUnit::PsalmVerses { psalm: 119, start_verse: 97, end_verse: 176 });
    }
    if iteration < 1 || iteration > 30 {
        return None;
    }
    let i = iteration as usize;
    let start: u8 = if i == 1 {
        1
    } else {
        psalm_end(i - 2) + 1
    };
    let end: u8 = if day == 29 && days_in_month == 29 && i < 30 {
        psalm_end(i)
    } else {
        psalm_end(i - 1)
    };
    Some(TehillimUnit::Psalms { start, end })
}

/// Calculates the monthly Tehillim schedule.
#[derive(Default)]
pub struct TehillimMonthly;

impl TehillimMonthly {
    /// The reading of a day of the month: the interval is that day, its
    /// number is the day's place in the month, and its last day tells the
    /// day of the month and the month's length.
    pub fn unit_for_interval(&self, interval: &Interval, _limud_date: &HebrewDate) -> (r: Option<
        TehillimUnit,
    >)
        ensures
            r == tehillim_unit(
                interval.iteration as int,
                interval.end_date.spec_day(),
                interval.end_date.spec_days_in_month(),
            ),
    {
        unit_for_day(
            interval.iteration as i64,
            interval.end_date.day_of_month(),
            interval.end_date.days_in_month(),
        )
    }
}

impl LimudCalculator<TehillimUnit> for TehillimMonthly {
    open spec fn limud_spec(&self, d: int) -> Option<TehillimUnit> {
        tehillim_on(d)
    }

    /// The psalms read on the date. Every day from the first of its month
    /// to the month's last day has a reading.
    fn limud(&self, date: HebrewDate) -> (r: Option<TehillimUnit>)
        ensures
            monthly_cycle_spec(date@) matches Some((s, e)) && s <= date@ <= e ==> r is Some,
    {
        let cycle = match Cycle::from_perpetual(PerpetualCycleFinder::Monthly, &date) {
            Some(c) => c,
            None => return None,
        };
        if date.is_before(&cycle.start_date) || cycle.end_date.is_before(&date) {
            return None;
        }
        let iteration = cycle.start_date.days_until(&date) + 1;
        unit_for_day(iteration, date.day_of_month(), date.days_in_month())
    }
}

} // verus!
