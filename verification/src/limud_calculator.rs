//! What every learning schedule offers: the unit learned on a date.
use vstd::prelude::*;

use crate::date::HebrewDate;

verus! {

/// A learning schedule: it tells what is learned on a date.
pub trait LimudCalculator<T> {
    /// The unit learned on day number `d`, or `None` where the schedule
    /// assigns nothing to that day.
    spec fn limud_spec(&self, d: int) -> Option<T>;

    /// The unit learned on the date.
    fn limud(&self, limud_date: HebrewDate) -> (r: Option<T>)
        ensures
            r == self.limud_spec(limud_date@),
    ;
}

impl HebrewDate {
    /// The unit that the schedule assigns to this date.
    pub fn limud<T, C: LimudCalculator<T>>(&self, limud_calculator: C) -> (r: Option<T>)
        ensures
            r == limud_calculator.limud_spec(self@),
    {
        limud_calculator.limud(*self)
    }
}

} // verus!
