//! Pirkei Avos, read a chapter each Shabbos from after Pesach until Rosh
//! Hashanah.
use vstd::prelude::*;

use crate::limud_calculator::LimudCalculator;
use crate::arithmetic::tmod;
use crate::cycle::{Cycle, PerpetualCycleFinder};
use crate::date::{
    hebrew_date_spec, month_at, valid_day_number, weekday_number, weekday_of_day_number, HebrewDate,
    Weekday,
};
use crate::icu::{icu_hebrew_day_of_month, icu_hebrew_year};
use crate::interval::{interval_end_spec, lemma_week_ends_on_shabbos, Interval, IntervalRule};
use crate::month::HebrewMonth;

verus! {

/// A Pirkei Avos reading.
#[derive(Debug, Clone, Copy, PartialEq, Eq, Hash, Structural)]
pub enum PirkeiAvosUnit {
    /// A single perek (chapter).
    Single(u8),
    /// Two perakim read together (when the weeks run short).
    Combined(u8, u8),
}

/// The day of Nissan on which the cycle starts: the day after Pesach, the
/// 22nd in Israel and the 23rd outside it.
pub open spec fn avos_anchor(in_israel: bool) -> int {
    if in_israel {
        22
    } else {
        23
    }
}

/// The (first, last) day numbers of the yearly cycle that day number `d`
/// belongs to: it starts on the day after Pesach of the year of `d` (or of
/// the year before, when `d` comes before that day) and ends on the last
/// Shabbos before the next Rosh Hashanah. `None` where `icu_calendar` does
/// not build the dates the cycle is found from.
pub open spec fn avos_cycle_spec(in_israel: bool, d: int) -> Option<(int, int)> {
    let year = icu_hebrew_year(d);
    let anchor = avos_anchor(in_israel);
    match hebrew_date_spec(year, HebrewMonth::Nissan, anchor) {
        None => None,
        Some(this_start) => {
            let cycle_year = if d >= this_start {
                year
            } else {
                year - 1
            };
            let start = if d >= this_start {
                Some(this_start)
            } else {
                hebrew_date_spec(year - 1, HebrewMonth::Nissan, anchor)
            };
            match start {
                None => None,
                Some(s) => match hebrew_date_spec(cycle_year + 1, HebrewMonth::Tishrei, 1) {
                    None => None,
                    Some(rh) => {
                        let e = rh - weekday_number(weekday_of_day_number(rh));
                        Some((
                            s,
                            if valid_day_number(e) {
                                e
                            } else {
                                rh
                            },
                        ))
                    },
                },
            }
        },
    }
}

/// The cycle ends on a Shabbos (away from the edge of the supported range,
/// where the Shabbos before Rosh Hashanah could not be built).
pub proof fn lemma_avos_cycle_ends_on_shabbos(in_israel: bool, d: int)
    requires
        avos_cycle_spec(in_israel, d) is Some,
        valid_day_number(avos_cycle_spec(in_israel, d).unwrap().1 - 7),
    ensures
        weekday_of_day_number(avos_cycle_spec(in_israel, d).unwrap().1) == Weekday::Saturday,
{
}

/// Whether the week that ends on day number `end` is skipped: a Shabbos
/// that is Tisha B'Av or its eve, and outside Israel a Shabbos that is the
/// second day of Shavuos.
pub open spec fn avos_skip(in_israel: bool, end: int) -> bool {
    let m = month_at(end);
    let day = icu_hebrew_day_of_month(end);
    (m == HebrewMonth::Av && (day == 8 || day == 9)) || (!in_israel && m == HebrewMonth::Sivan && day
        == 7)
}

/// Walking the weeks of a cycle that ends on `cycle_end` from the week that
/// starts on `start` and has the given number: the (last day, number) of
/// the week that holds day number `d`. A skipped week passes its number on
/// to the next. `None` where no week of the cycle holds `d`.
pub open spec fn avos_walk(in_israel: bool, cycle_end: int, start: int, iteration: int, d: int) -> Option<
    (int, int),
>
    decreases cycle_end - start,
{
    let end = interval_end_spec(IntervalRule::EndsOnShabbos, start);
    if !valid_day_number(end) {
        None
    } else if start <= d && d <= end {
        Some((end, iteration))
    } else if end >= cycle_end || !valid_day_number(end + 1) {
        None
    } else {
        avos_walk(
            in_israel,
            cycle_end,
            end + 1,
            if avos_skip(in_israel, end) {
                iteration
            } else {
                iteration + 1
            },
            d,
        )
    }
}

/// From a week that starts on or before day `d`, in a cycle that ends on a
/// Shabbos on or after `d`, walking the weeks reaches the week of `d`.
proof fn lemma_walk_reaches(in_israel: bool, cycle_end: int, start: int, iteration: int, d: int)
    requires
        valid_day_number(start),
        valid_day_number(cycle_end),
        weekday_of_day_number(cycle_end) == Weekday::Saturday,
        start <= d <= cycle_end,
    ensures
        avos_walk(in_israel, cycle_end, start, iteration, d) is Some,
    decreases cycle_end - start,
{
    let end = interval_end_spec(IntervalRule::EndsOnShabbos, start);
    lemma_week_ends_on_shabbos(start);
    assert(cycle_end % 7 == 6 && end % 7 == 6);
    assert(end <= cycle_end);
    if d > end {
        let next = if avos_skip(in_israel, end) {
            iteration
        } else {
            iteration + 1
        };
        lemma_walk_reaches(in_israel, cycle_end, end + 1, next, d);
    }
}

/// The weeks of a cycle cover it: every day from the first of the cycle to
/// its last Shabbos lies in a week, and it has a reading unless that week
/// is skipped (away from the edge of the supported range).
pub proof fn lemma_avos_weeks_cover_cycle(in_israel: bool, d: int)
    requires
        avos_cycle_spec(in_israel, d) matches Some((s, e)) && s <= d <= e,
        valid_day_number(avos_cycle_spec(in_israel, d).unwrap().1 - 7),
    ensures
        avos_walk(
            in_israel,
            avos_cycle_spec(in_israel, d).unwrap().1,
            avos_cycle_spec(in_israel, d).unwrap().0,
            1,
            d,
        ) matches Some((end, it)) && (pirkei_avos_on(in_israel, d) is None <==> avos_skip(
            in_israel,
            end,
        )),
{
    let (s, e) = avos_cycle_spec(in_israel, d).unwrap();
    lemma_avos_cycle_ends_on_shabbos(in_israel, d);
    lemma_walk_reaches(in_israel, e, s, 1, d);
}

/// The chapter of week `iteration` in the plain six-week rotation, with
/// the remainder taken as Rust's `%` does and the result cut to a byte (as
/// a week numbered 0 or below gives it).
pub open spec fn avos_chapter(iteration: int) -> u8 {
    (tmod(iteration - 1, 6) + 1) as u8
}

/// The reading of week `iteration`, which ends on day number `end`, in a
/// cycle that ends on `cycle_end`: three rounds of the six chapters, then a
/// fourth round that is compressed by the weeks that remain.
pub open spec fn avos_unit(iteration: int, end: int, cycle_end: int) -> PirkeiAvosUnit {
    if iteration < 19 {
        PirkeiAvosUnit::Single(avos_chapter(iteration))
    } else {
        let days = if cycle_end >= end {
            cycle_end - end
        } else {
            end - cycle_end
        };
        let weeks = (days + 6) / 7;
        if weeks == 0 {
            PirkeiAvosUnit::Combined(5, 6)
        } else if weeks == 1 {
            PirkeiAvosUnit::Combined(3, 4)
        } else if weeks == 2 {
            if tmod(iteration - 1, 6) == 0 {
                PirkeiAvosUnit::Combined(1, 2)
            } else {
                PirkeiAvosUnit::Single(avos_chapter(iteration))
            }
        } else if weeks == 3 {
            PirkeiAvosUnit::Single(1)
        } else {
            PirkeiAvosUnit::Single(avos_chapter(iteration))
        }
    }
}

/// The Pirkei Avos reading of day number `d`: `None` outside the cycle and
/// in a skipped week.
pub open spec fn pirkei_avos_on(in_israel: bool, d: int) -> Option<PirkeiAvosUnit> {
    match avos_cycle_spec(in_israel, d) {
        Some((s, e)) => if e < d {
            None
        } else {
            match avos_walk(in_israel, e, s, 1, d) {
                Some((end, it)) => if avos_skip(in_israel, end) {
                    None
                } else {
                    Some(avos_unit(it, end, e))
                },
                None => None,
            }
        },
        None => None,
    }
}

/// The first and last day of the yearly cycle that `date` belongs to.
pub fn find_yearly_cycle(in_israel: bool, date: &HebrewDate) -> (r: Option<(HebrewDate, HebrewDate)>)
    ensures
        r is Some <==> avos_cycle_spec(in_israel, date@) is Some,
        r matches Some(c) ==> avos_cycle_spec(in_israel, date@) == Some((c.0@, c.1@)),
{
    let year = date.extended_year();
    let anchor: u8 = if in_israel {
        22
    } else {
        23
    };
    let this_start = match HebrewDate::from_hebrew_date(year, HebrewMonth::Nissan, anchor) {
        Some(d) => d,
        None => return None,
    };
    let (start, cycle_year) = if !date.is_before(&this_start) {
        (this_start, year)
    } else {
        match HebrewDate::from_hebrew_date(year - 1, HebrewMonth::Nissan, anchor) {
            Some(d) => (d, year - 1),
            None => return None,
        }
    };
    let rosh_hashana = match HebrewDate::from_hebrew_date(cycle_year + 1, HebrewMonth::Tishrei, 1) {
        Some(d) => d,
        None => return None,
    };
    let day_number = rosh_hashana.day_of_week_number();
    let end = match rosh_hashana.add_days(-day_number) {
        Some(e) => e,
        None => rosh_hashana,
    };
    Some((start, end))
}

/// Calculates the Pirkei Avos schedule, in Israel or outside it.
pub struct PirkeiAvos {
    pub in_israel: bool,
}

impl PirkeiAvos {
    /// The schedule in Israel or outside it.
    pub fn new(in_israel: bool) -> (r: Self)
        ensures
            r.in_israel == in_israel,
    {
        PirkeiAvos { in_israel }
    }

    /// Whether the week is skipped.
    pub fn is_skip_interval(&self, interval: &Interval) -> (r: bool)
        ensures
            r == avos_skip(self.in_israel, interval.end_date@),
    {
        let end_month = interval.end_date.hebrew_month();
        let end_day = interval.end_date.day_of_month();
        if end_month == HebrewMonth::Av && end_day == 8 {
            return true;
        }
        if end_month == HebrewMonth::Av && end_day == 9 {
            return true;
        }
        if !self.in_israel && end_month == HebrewMonth::Sivan && end_day == 7 {
            return true;
        }
        false
    }

    /// The reading of the week. Any week number is taken but the least,
    /// whose predecessor does not fit in an `i32`.
    pub fn unit_for_interval(&self, interval: &Interval) -> (r: PirkeiAvosUnit)
        requires
            interval.iteration > i32::MIN,
        ensures
            r == avos_unit(interval.iteration as int, interval.end_date@, interval.cycle.end_date@),
    {
        let iteration = interval.iteration;
        let _ = interval.end_date.day_number();
        let _ = interval.cycle.end_date.day_number();
        if iteration < 19 {
            return PirkeiAvosUnit::Single(((iteration - 1) % 6 + 1) as u8);
        }
        let d = interval.end_date.days_until(&interval.cycle.end_date);
        let days = if d >= 0 {
            d
        } else {
            -d
        };
        let weeks = (days + 6) / 7;
        if weeks == 0 {
            PirkeiAvosUnit::Combined(5, 6)
        } else if weeks == 1 {
            PirkeiAvosUnit::Combined(3, 4)
        } else if weeks == 2 {
            if (iteration - 1) % 6 == 0 {
                PirkeiAvosUnit::Combined(1, 2)
            } else {
                PirkeiAvosUnit::Single(((iteration - 1) % 6 + 1) as u8)
            }
        } else if weeks == 3 {
            PirkeiAvosUnit::Single(1)
        } else {
            PirkeiAvosUnit::Single(((iteration - 1) % 6 + 1) as u8)
        }
    }
}

impl LimudCalculator<PirkeiAvosUnit> for PirkeiAvos {
    open spec fn limud_spec(&self, d: int) -> Option<PirkeiAvosUnit> {
        pirkei_avos_on(self.in_israel, d)
    }

    /// The chapter (or chapters) read in the week of the date; `None`
    /// outside the cycle and in a skipped week.
    fn limud(&self, date: HebrewDate) -> (r: Option<PirkeiAvosUnit>) {
        let finder = PerpetualCycleFinder::PirkeiAvos { in_israel: self.in_israel };
        let cycle = match Cycle::from_perpetual(finder, &date) {
            Some(c) => c,
            None => return None,
        };
        if cycle.end_date.is_before(&date) {
            return None;
        }
        let rule = IntervalRule::EndsOnShabbos;
        let mut interval = match Interval::first_for_cycle(cycle, rule) {
            Some(i) => i,
            None => return None,
        };
        let _ = cycle.start_date.day_number();
        while !interval.contains(&date)
            invariant
                interval.cycle == cycle,
                avos_cycle_spec(self.in_israel, date@) == Some((cycle.start_date@, cycle.end_date@)),
                date@ <= cycle.end_date@,
                interval.end_date@ == interval_end_spec(rule, interval.start_date@),
                valid_day_number(cycle.start_date@),
                cycle.start_date@ <= interval.start_date@,
                1 <= interval.iteration <= interval.start_date@ - cycle.start_date@ + 1,
                rule == IntervalRule::EndsOnShabbos,
                avos_walk(
                    self.in_israel,
                    cycle.end_date@,
                    interval.start_date@,
                    interval.iteration as int,
                    date@,
                ) == avos_walk(self.in_israel, cycle.end_date@, cycle.start_date@, 1, date@),
            decreases cycle.end_date@ - interval.start_date@,
        {
            let _ = interval.start_date.day_number();
            let _ = interval.end_date.day_number();
            let ghost ce = cycle.end_date@;
            let ghost en = interval.end_date@;
            let ghost nit = if avos_skip(self.in_israel, en) {
                interval.iteration as int
            } else {
                interval.iteration + 1
            };
            assert(avos_walk(self.in_israel, ce, interval.start_date@, interval.iteration as int, date@)
                == (if en >= ce || !valid_day_number(en + 1) {
                None
            } else {
                avos_walk(self.in_israel, ce, en + 1, nit, date@)
            }));
            let next = if self.is_skip_interval(&interval) {
                interval.skip(rule)
            } else {
                interval.next(rule)
            };
            interval = match next {
                Some(i) => i,
                None => {
                    proof {
                        if en < ce && valid_day_number(en + 1) {
                            assert(avos_walk(self.in_israel, ce, en + 1, nit, date@) is None);
                        }
                    }
                    return None;
                },
            };
        }
        if self.is_skip_interval(&interval) {
            return None;
        }
        Some(self.unit_for_interval(&interval))
    }
}

} // verus!
