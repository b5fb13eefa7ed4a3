//! The intervals of a cycle: the stretches of days that share one unit of
//! learning.
use vstd::prelude::*;

use crate::cycle::Cycle;
use crate::date::{valid_day_number, weekday_number, weekday_of_day_number, HebrewDate, Weekday};

verus! {

/// How the last day of an interval follows from its first.
#[derive(Debug, Clone, Copy, PartialEq, Eq, Structural)]
pub enum IntervalRule {
    /// Each interval is a single day.
    Daily,
    /// Each interval runs to the next Shabbos (or is that Shabbos).
    EndsOnShabbos,
}

/// The last day of the interval that starts on day number `start`.
pub open spec fn interval_end_spec(rule: IntervalRule, start: int) -> int {
    match rule {
        IntervalRule::Daily => start,
        IntervalRule::EndsOnShabbos => start + 7 - weekday_number(weekday_of_day_number(start)),
    }
}

/// A weekly interval ends on the first Shabbos on or after its first day.
pub proof fn lemma_week_ends_on_shabbos(start: int)
    ensures
        weekday_of_day_number(interval_end_spec(IntervalRule::EndsOnShabbos, start))
            == Weekday::Saturday,
        start <= interval_end_spec(IntervalRule::EndsOnShabbos, start) <= start + 6,
{
}

/// The last day of the interval that starts on `start`, or `None` outside
/// the range of the library's dates.
pub fn interval_end(rule: IntervalRule, start: &HebrewDate) -> (r: Option<HebrewDate>)
    ensures
        r is Some <==> valid_day_number(interval_end_spec(rule, start@)),
        r matches Some(e) ==> e@ == interval_end_spec(rule, start@),
{
    let _ = start.day_number();
    match rule {
        IntervalRule::Daily => Some(*start),
        IntervalRule::EndsOnShabbos => {
            let n = start.day_of_week_number();
            start.add_days(7 - n)
        },
    }
}

/// An interval of a cycle: its first and last day, its number within the
/// cycle, and the cycle.
#[derive(Debug, Clone, Copy)]
pub struct Interval {
    pub start_date: HebrewDate,
    pub end_date: HebrewDate,
    pub iteration: i32,
    pub cycle: Cycle,
}

impl Interval {
    /// The first interval of a cycle, numbered 1; `None` where its last day
    /// falls outside the range of the library's dates.
    pub fn first_for_cycle(cycle: Cycle, rule: IntervalRule) -> (r: Option<Interval>)
        ensures
            r is Some <==> valid_day_number(interval_end_spec(rule, cycle.start_date@)),
            r matches Some(i) ==> i.start_date == cycle.start_date && i.end_date@
                == interval_end_spec(rule, cycle.start_date@) && i.iteration == 1 && i.cycle
                == cycle,
    {
        let start_date = cycle.start_date;
        let end_date = match interval_end(rule, &start_date) {
            Some(e) => e,
            None => return None,
        };
        Some(Interval { start_date, end_date, iteration: 1, cycle })
    }

    /// The interval after this one, numbered one more; `None` once this
    /// interval reaches the end of the cycle.
    pub fn next(&self, rule: IntervalRule) -> (r: Option<Interval>)
        requires
            self.iteration < i32::MAX,
        ensures
            r is Some <==> self.end_date@ < self.cycle.end_date@ && valid_day_number(
                self.end_date@ + 1,
            ) && valid_day_number(interval_end_spec(rule, self.end_date@ + 1)),
            r matches Some(i) ==> i.start_date@ == self.end_date@ + 1 && i.end_date@
                == interval_end_spec(rule, self.end_date@ + 1) && i.iteration == self.iteration + 1
                && i.cycle == self.cycle,
    {
        self.next_for_iteration(self.iteration + 1, rule)
    }

    /// The interval after this one, under the same number: this interval is
    /// skipped and its unit passes on to the next.
    pub fn skip(&self, rule: IntervalRule) -> (r: Option<Interval>)
        ensures
            r is Some <==> self.end_date@ < self.cycle.end_date@ && valid_day_number(
                self.end_date@ + 1,
            ) && valid_day_number(interval_end_spec(rule, self.end_date@ + 1)),
            r matches Some(i) ==> i.start_date@ == self.end_date@ + 1 && i.end_date@
                == interval_end_spec(rule, self.end_date@ + 1) && i.iteration == self.iteration
                && i.cycle == self.cycle,
    {
        self.next_for_iteration(self.iteration, rule)
    }

    fn next_for_iteration(&self, new_iteration: i32, rule: IntervalRule) -> (r: Option<Interval>)
        ensures
            r is Some <==> self.end_date@ < self.cycle.end_date@ && valid_day_number(
                self.end_date@ + 1,
            ) && valid_day_number(interval_end_spec(rule, self.end_date@ + 1)),
            r matches Some(i) ==> i.start_date@ == self.end_date@ + 1 && i.end_date@
                == interval_end_spec(rule, self.end_date@ + 1) && i.iteration == new_iteration
                && i.cycle == self.cycle,
    {
        if !self.end_date.is_before(&self.cycle.end_date) {
            return None;
        }
        let start_date = match self.end_date.add_days(1) {
            Some(d) => d,
            None => return None,
        };
        let end_date = match interval_end(rule, &start_date) {
            Some(e) => e,
            None => return None,
        };
        Some(Interval { start_date, end_date, iteration: new_iteration, cycle: self.cycle })
    }

    /// Whether the date falls within the interval.
    pub fn contains(&self, date: &HebrewDate) -> (r: bool)
        ensures
            r == (self.start_date@ <= date@ && date@ <= self.end_date@),
    {
        !date.is_before(&self.start_date) && !date.is_after(&self.end_date)
    }
}

} // verus!
