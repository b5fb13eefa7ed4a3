//! The cycles of a learning schedule.
use vstd::prelude::*;

use crate::daf_yomi_yerushalmi::{
    found_skips_between, lemma_extend_by_skips, lemma_skips_bounded, skips_between,
    extend_by_skips, yerushalmi_cycle_end, YERUSHALMI_DAF_COUNT,
};
use crate::date::{valid_day_number, HebrewDate};
use crate::pirkei_avos::{avos_cycle_spec, find_yearly_cycle};
use crate::tehillim_monthly::{find_monthly_cycle, monthly_cycle_spec};

verus! {

/// Number of amudim (half-pages) in the Babylonian Talmud for Dirshu.
pub const BAVLI_TOTAL_AMUDIM: i32 = 5406;

/// Number of dafim in Daf Yomi Bavli cycles 1-7 (before Shekalim grew).
pub const BAVLI_DAF_COUNT_EARLY: i32 = 2702;

/// Number of dafim in Daf Yomi Bavli cycles 8 on (after Shekalim grew).
pub const BAVLI_DAF_COUNT_MODERN: i32 = 2711;

/// Number of days in a Mishna Yomis cycle (4192 mishnayos, 2 a day) less one.
pub const MISHNA_YOMIS_CYCLE_DAYS: i32 = 2095;

/// Cycle number from which Shekalim has 22 dafim instead of 13.
pub const SHEKALIM_EXPANSION_CYCLE: i32 = 8;

/// How long the cycles of a schedule that began on a fixed date last.
#[derive(Debug, PartialEq, Eq, Clone, Copy, Structural)]
pub enum CycleRule {
    /// Daf Yomi Bavli: 2702 days in cycles 1 to 7, 2711 days from cycle 8.
    DafYomiBavli,
    /// Amud Yomi Bavli (Dirshu): 5406 days.
    AmudYomiBavliDirshu,
    /// Mishna Yomis: the start day and 2095 more.
    MishnaYomis,
    /// Daf Yomi Yerushalmi: 1554 days and one more for each skipped day.
    DafYomiYerushalmi,
}

/// The last day of cycle number `iteration` of a schedule when it starts on
/// `start`; `None` when it would fall outside the dates the library supports.
pub open spec fn spec_cycle_end(rule: CycleRule, start: int, iteration: int) -> Option<int> {
    match rule {
        CycleRule::DafYomiBavli => {
            let days = if iteration < SHEKALIM_EXPANSION_CYCLE {
                BAVLI_DAF_COUNT_EARLY
            } else {
                BAVLI_DAF_COUNT_MODERN
            };
            if valid_day_number(start + days - 1) {
                Some(start + days - 1)
            } else {
                None
            }
        },
        CycleRule::AmudYomiBavliDirshu => if valid_day_number(start + BAVLI_TOTAL_AMUDIM - 1) {
            Some(start + BAVLI_TOTAL_AMUDIM - 1)
        } else {
            None
        },
        CycleRule::MishnaYomis => if valid_day_number(start + MISHNA_YOMIS_CYCLE_DAYS) {
            Some(start + MISHNA_YOMIS_CYCLE_DAYS)
        } else {
            None
        },
        CycleRule::DafYomiYerushalmi => yerushalmi_cycle_end(start),
    }
}

/// Every cycle lasts at least 1554 days.
pub proof fn lemma_cycle_end_after_start(rule: CycleRule, start: int, iteration: int)
    ensures
        spec_cycle_end(rule, start, iteration) matches Some(e) ==> e >= start + 1553,
{
    if rule == CycleRule::DafYomiYerushalmi {
        lemma_extend_by_skips(
            start + (YERUSHALMI_DAF_COUNT - 1),
            skips_between(start, start + (YERUSHALMI_DAF_COUNT - 1)),
        );
    }
}

/// Walking the cycles from the one numbered `iteration` that starts on
/// `start`, the (start, end, number) of the one that holds day `d`.
pub open spec fn cycle_walk(rule: CycleRule, start: int, iteration: int, d: int) -> Option<(int, int, int)>
    decreases d - start,
{
    if d < start {
        None
    } else {
        match spec_cycle_end(rule, start, iteration) {
            None => None,
            Some(e) => {
                proof {
                    lemma_cycle_end_after_start(rule, start, iteration);
                }
                if d <= e {
                    Some((start, e, iteration))
                } else if !valid_day_number(e + 1) {
                    None
                } else {
                    cycle_walk(rule, e + 1, iteration + 1, d)
                }
            },
        }
    }
}

/// The cycle that the walk finds holds the day, and is one whose end the
/// rule gives for its start and number.
pub proof fn lemma_cycle_walk(rule: CycleRule, start: int, iteration: int, d: int)
    ensures
        cycle_walk(rule, start, iteration, d) matches Some(c) ==> c.0 <= d <= c.1 && spec_cycle_end(
            rule,
            c.0,
            c.2,
        ) == Some(c.1) && c.2 >= iteration && c.0 >= start,
    decreases d - start,
{
    if d >= start {
        if let Some(e) = spec_cycle_end(rule, start, iteration) {
            lemma_cycle_end_after_start(rule, start, iteration);
            if d > e && valid_day_number(e + 1) {
                lemma_cycle_walk(rule, e + 1, iteration + 1, d);
            }
        }
    }
}

/// The (start, end, number) of the cycle that holds day `d`, when the first
/// cycle starts on day `first`.
pub open spec fn find_cycle_spec(rule: CycleRule, first: int, d: int) -> Option<(int, int, int)> {
    if first > d {
        None
    } else {
        cycle_walk(rule, first, 1, d)
    }
}

/// A cycle of a schedule: its first and last day, and its number (for a
/// schedule that began on a fixed date).
#[derive(Debug, Clone, Copy)]
pub struct Cycle {
    pub start_date: HebrewDate,
    pub end_date: HebrewDate,
    pub iteration: Option<i32>,
}

/// The last day of cycle number `iteration` of a schedule when it starts on
/// `start`.
pub fn cycle_end(rule: CycleRule, start: &HebrewDate, iteration: i32) -> (r: Option<HebrewDate>)
    ensures
        r matches Some(e) ==> spec_cycle_end(rule, start@, iteration as int) == Some(e@),
        r is None ==> spec_cycle_end(rule, start@, iteration as int) is None,
{
    match rule {
        CycleRule::DafYomiBavli => {
            let days = if iteration < SHEKALIM_EXPANSION_CYCLE {
                BAVLI_DAF_COUNT_EARLY
            } else {
                BAVLI_DAF_COUNT_MODERN
            };
            start.add_days(days - 1)
        },
        CycleRule::AmudYomiBavliDirshu => start.add_days(BAVLI_TOTAL_AMUDIM - 1),
        CycleRule::MishnaYomis => start.add_days(MISHNA_YOMIS_CYCLE_DAYS),
        CycleRule::DafYomiYerushalmi => yerushalmi_end(start),
    }
}

/// The last day of a Yerushalmi cycle that starts on `start`.
fn yerushalmi_end(start: &HebrewDate) -> (r: Option<HebrewDate>)
    ensures
        r matches Some(e) ==> yerushalmi_cycle_end(start@) == Some(e@),
        r is None ==> yerushalmi_cycle_end(start@) is None,
{
    let mut end_date = match start.add_days(YERUSHALMI_DAF_COUNT - 1) {
        Some(e) => e,
        None => return None,
    };
    let mut found = found_skips_between(start, &end_date);
    proof {
        lemma_skips_bounded(start@, end_date@);
    }
    while found > 0
        invariant
            0 <= found <= YERUSHALMI_DAF_COUNT,
            extend_by_skips(end_date@, found as int) == yerushalmi_cycle_end(start@),
        decreases found,
    {
        let new_start = match end_date.add_days(1) {
            Some(d) => d,
            None => return None,
        };
        end_date = match end_date.add_days(found) {
            Some(d) => d,
            None => return None,
        };
        proof {
            lemma_skips_bounded(new_start@, end_date@);
        }
        found = found_skips_between(&new_start, &end_date);
    }
    Some(end_date)
}

impl Cycle {
    /// The cycle that holds `date` of a schedule whose first cycle starts on
    /// `initial_cycle_date`; `None` before the first cycle, or when a cycle
    /// would end outside the dates the library supports.
    pub fn from_cycle_initiation(initial_cycle_date: &HebrewDate, rule: CycleRule, date: &HebrewDate) -> (r:
        Option<Cycle>)
        ensures
            r matches Some(c) ==> find_cycle_spec(rule, initial_cycle_date@, date@) == Some(
                (c.start_date@, c.end_date@, c.iteration.unwrap() as int),
            ) && c.iteration is Some,
            r is None ==> find_cycle_spec(rule, initial_cycle_date@, date@) is None,
    {
        if initial_cycle_date.is_after(date) {
            return None;
        }
        let iteration: i32 = 1;
        let end_date = match cycle_end(rule, initial_cycle_date, iteration) {
            Some(e) => e,
            None => return None,
        };
        let mut cycle = Cycle {
            start_date: *initial_cycle_date,
            end_date,
            iteration: Some(iteration),
        };
        proof {
            lemma_cycle_end_after_start(rule, initial_cycle_date@, 1);
        }
        while date.is_after(&cycle.end_date)
            invariant
                cycle.iteration is Some,
                1 <= cycle.iteration.unwrap(),
                cycle.start_date@ <= date@,
                initial_cycle_date@ + 1554 * (cycle.iteration.unwrap() - 1) <= cycle.start_date@,
                spec_cycle_end(rule, cycle.start_date@, cycle.iteration.unwrap() as int) == Some(
                    cycle.end_date@,
                ),
                cycle_walk(rule, cycle.start_date@, cycle.iteration.unwrap() as int, date@)
                    == find_cycle_spec(rule, initial_cycle_date@, date@),
            decreases date@ - cycle.start_date@,
        {
            proof {
                lemma_cycle_end_after_start(rule, cycle.start_date@, cycle.iteration.unwrap() as int);
            }
            let dn = date.day_number();
            let sn = initial_cycle_date.day_number();
            let en = cycle.end_date.day_number();
            let ghost it = cycle.iteration.unwrap() as int;
            assert(valid_day_number(en + 1));
            assert(cycle_walk(rule, cycle.start_date@, it, date@) == cycle_walk(
                rule,
                en + 1,
                it + 1,
                date@,
            ));
            cycle = match cycle.next(rule) {
                Some(c) => c,
                None => {
                    assert(cycle_walk(rule, en + 1, it + 1, date@) is None);
                    return None;
                },
            };
        }
        Some(cycle)
    }
}


/// How a schedule that repeats without end finds the cycle of a date.
#[derive(Debug, Clone, Copy, PartialEq, Eq, Structural)]
pub enum PerpetualCycleFinder {
    /// The cycle is the Hebrew month of the date.
    Monthly,
    /// The cycle runs from after Pesach to the Shabbos before Rosh Hashanah.
    PirkeiAvos { in_israel: bool },
}

/// The (first, last) day numbers of the cycle of day number `d`.
pub open spec fn perpetual_cycle_spec(finder: PerpetualCycleFinder, d: int) -> Option<(int, int)> {
    match finder {
        PerpetualCycleFinder::Monthly => monthly_cycle_spec(d),
        PerpetualCycleFinder::PirkeiAvos { in_israel } => avos_cycle_spec(in_israel, d),
    }
}

impl Cycle {
    /// The cycle of `date` in a schedule that repeats without end; such a
    /// cycle has no number.
    pub fn from_perpetual(finder: PerpetualCycleFinder, date: &HebrewDate) -> (r: Option<Cycle>)
        ensures
            r is Some <==> perpetual_cycle_spec(finder, date@) is Some,
            r matches Some(c) ==> perpetual_cycle_spec(finder, date@) == Some(
                (c.start_date@, c.end_date@),
            ) && c.iteration is None,
            finder == PerpetualCycleFinder::Monthly ==> (r matches Some(c) ==> c.end_date@
                - c.start_date@ < 30),
    {
        let found = match finder {
            PerpetualCycleFinder::Monthly => find_monthly_cycle(date),
            PerpetualCycleFinder::PirkeiAvos { in_israel } => find_yearly_cycle(in_israel, date),
        };
        match found {
            Some((start_date, end_date)) => Some(Cycle { start_date, end_date, iteration: None }),
            None => None,
        }
    }

    /// The cycle after this one, numbered one more; `None` for a cycle that
    /// has no number, or where the next cycle's days fall outside the range
    /// of the library's dates.
    pub fn next(&self, rule: CycleRule) -> (r: Option<Cycle>)
        requires
            self.iteration matches Some(i) ==> i < i32::MAX,
        ensures
            self.iteration is None ==> r is None,
            self.iteration matches Some(i) ==> (r is Some <==> valid_day_number(self.end_date@ + 1)
                && spec_cycle_end(rule, self.end_date@ + 1, i + 1) is Some),
            r matches Some(c) ==> c.start_date@ == self.end_date@ + 1 && c.iteration == Some(
                (self.iteration.unwrap() + 1) as i32,
            ) && spec_cycle_end(rule, c.start_date@, self.iteration.unwrap() + 1) == Some(
                c.end_date@,
            ),
    {
        match self.iteration {
            Some(iteration) => {
                let new_iteration = iteration + 1;
                let start_date = match self.end_date.add_days(1) {
                    Some(d) => d,
                    None => return None,
                };
                let end_date = match cycle_end(rule, &start_date, new_iteration) {
                    Some(e) => e,
                    None => return None,
                };
                Some(Cycle { start_date, end_date, iteration: Some(new_iteration) })
            },
            None => None,
        }
    }
}

} // verus!
